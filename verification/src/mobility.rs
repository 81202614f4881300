//! Global mobility: international assignments and visa expiry checks.
//! (Relocation expense amounts are fractional and kept outside the library.)
use vstd::prelude::*;
use crate::common::{date_diff_days, days_between, is_valid, new_id, now_millis, utc_date_of, CivilDate};

verus! {

#[derive(Debug, Clone, Copy, PartialEq, Eq, Structural)]
pub enum AssignmentStatus {
    Planning,
    Active,
    Completed,
    Extended,
    Cancelled,
}

#[derive(Debug, Clone, Copy, PartialEq, Eq, Structural)]
pub enum AssignmentType {
    ShortTerm,
    LongTerm,
    PermanentTransfer,
    Commuter,
}

#[derive(Debug, Clone)]
pub struct VisaRecord {
    pub id: u128,
    pub employee_id: u128,
    pub country_code: String,
    pub visa_type: String,
    pub visa_number: String,
    pub expiry_date: CivilDate,
    pub status: String,
}

/// An international assignment. Instants are milliseconds since the Unix epoch.
#[derive(Debug, Clone)]
pub struct InternationalAssignment {
    pub id: u128,
    pub employee_id: u128,
    pub assignment_type: AssignmentType,
    pub home_country: String,
    pub host_country: String,
    pub home_entity_id: u128,
    pub host_entity_id: u128,
    pub start_date: CivilDate,
    pub end_date: CivilDate,
    pub status: AssignmentStatus,
    pub created_at_ms: i64,
    pub updated_at_ms: i64,
}

impl InternationalAssignment {
    /// A new assignment in planning.
    pub fn new(
        employee_id: u128,
        assignment_type: AssignmentType,
        home_country: String,
        host_country: String,
        home_entity_id: u128,
        host_entity_id: u128,
        start_date: CivilDate,
        end_date: CivilDate,
    ) -> (a: Self)
        ensures
            a.employee_id == employee_id,
            a.assignment_type == assignment_type,
            a.home_country == home_country,
            a.host_country == host_country,
            a.home_entity_id == home_entity_id,
            a.host_entity_id == host_entity_id,
            a.start_date == start_date,
            a.end_date == end_date,
            a.status == AssignmentStatus::Planning,
            a.created_at_ms == a.updated_at_ms,
    {
        let now = now_millis();
        InternationalAssignment {
            id: new_id(),
            employee_id,
            assignment_type,
            home_country,
            host_country,
            home_entity_id,
            host_entity_id,
            start_date,
            end_date,
            status: AssignmentStatus::Planning,
            created_at_ms: now,
            updated_at_ms: now,
        }
    }

    pub fn activate(&mut self)
        ensures
            final(self).status == AssignmentStatus::Active,
            *final(self) == (InternationalAssignment {
                status: AssignmentStatus::Active,
                updated_at_ms: final(self).updated_at_ms,
                ..*old(self)
            }),
    {
        self.status = AssignmentStatus::Active;
        self.updated_at_ms = now_millis();
    }

    pub fn complete(&mut self)
        ensures
            final(self).status == AssignmentStatus::Completed,
            *final(self) == (InternationalAssignment {
                status: AssignmentStatus::Completed,
                updated_at_ms: final(self).updated_at_ms,
                ..*old(self)
            }),
    {
        self.status = AssignmentStatus::Completed;
        self.updated_at_ms = now_millis();
    }
}

pub struct MobilityService {}

impl MobilityService {
    /// The one value of the service, which holds no state.
    pub closed spec fn the_service() -> Self {
        MobilityService {}
    }
}

/// `MobilityService` holds no state: every value of it is the one that `new`
/// gives, so any two of them answer every call alike.
pub proof fn law_mobility_service_is_stateless(a: MobilityService)
    ensures
        a == MobilityService::the_service(),
{
}

impl MobilityService {
    pub fn new() -> (s: Self)
        ensures
            s == MobilityService::the_service(),
    {
        MobilityService {}
    }

    /// Whether a visa expiring on `expiry` is expiring soon on day `today`:
    /// it expires today or within `threshold_days` days.
    pub fn expires_within(&self, expiry: CivilDate, today: CivilDate, threshold_days: i64) -> (r: bool)
        requires
            is_valid(expiry),
            is_valid(today),
        ensures
            r == (0 <= days_between(today, expiry) <= threshold_days),
    {
        let days_until = date_diff_days(today, expiry);
        days_until >= 0 && days_until <= threshold_days
    }

    /// Whether `visa` is expiring soon today (see `expires_within`).
    pub fn is_visa_expiring_soon(&self, visa: &VisaRecord, threshold_days: i64) -> (r: bool)
        requires
            is_valid(visa.expiry_date),
        ensures
            exists|today: CivilDate| is_valid(today) && r == (0 <= days_between(today, visa.expiry_date) <= threshold_days),
    {
        let today = utc_date_of(now_millis());
        self.expires_within(visa.expiry_date, today, threshold_days)
    }
}

} // verus!
