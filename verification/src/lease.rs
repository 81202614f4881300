//! Leases: lease terms in months, month arithmetic on dates, the base
//! payment of a schedule, the asset, liability and payment records of a
//! lease, and the integer totals of the lease disclosure.
use vstd::prelude::*;
use vstd::string::StringExecFns;
use crate::common::{date_exists, day_number, div_i64_truncating, div_toward_zero, in_time_range,
    is_valid, new_id, now_millis, numbered_with, utc_date_of, uuid_hyphenated, uuid_text, valid_date, CivilDate,
    RecordStatus, MILLIS_PER_DAY};

verus! {

#[derive(Debug, Clone, Copy, PartialEq, Eq, Structural)]
pub enum LeaseType {
    Operating,
    Finance,
    ShortTerm,
    LowValue,
    Land,
    Building,
    Equipment,
    Vehicle,
}

#[derive(Debug, Clone, Copy, PartialEq, Eq, Structural)]
pub enum LeaseStatus {
    Draft,
    PendingApproval,
    Active,
    Modified,
    UnderReview,
    Expired,
    Terminated,
    Renewed,
}

#[derive(Debug, Clone, Copy, PartialEq, Eq, Structural)]
pub enum PaymentFrequency {
    Monthly,
    Quarterly,
    SemiAnnually,
    Annually,
    Weekly,
    Custom,
}

#[derive(Debug, Clone, Copy, PartialEq, Eq, Structural)]
pub enum PaymentTiming {
    InAdvance,
    InArrears,
}

#[derive(Debug, Clone, Copy, PartialEq, Eq, Structural)]
pub enum EscalationType {
    Fixed,
    Percentage,
    CPI,
    MarketRate,
    NoEscalation,
}

#[derive(Debug, Clone, Copy, PartialEq, Eq, Structural)]
pub enum PaymentStatus {
    Scheduled,
    Due,
    Paid,
    Overdue,
    Waived,
    Cancelled,
}

#[derive(Debug, Clone, Copy, PartialEq, Eq, Structural)]
pub enum DepreciationMethod {
    StraightLine,
    DecliningBalance,
    SumOfYearsDigits,
    UnitsOfProduction,
}

#[derive(Debug, Clone, Copy, PartialEq, Eq, Structural)]
pub enum AmortizationMethod {
    EffectiveInterest,
    StraightLine,
}

#[derive(Debug, Clone, Copy, PartialEq, Eq, Structural)]
pub enum ModificationType {
    TermExtension,
    TermReduction,
    ScopeChange,
    PaymentChange,
    RateChange,
    PartialTermination,
    FullTermination,
}

#[derive(Debug, Clone, Copy, PartialEq, Eq, Structural)]
pub enum ModificationStatus {
    Draft,
    PendingApproval,
    Approved,
    Rejected,
    Processed,
}

/// Months from `start` to `end` counted by calendar month, at least one.
pub open spec fn term_months(start: CivilDate, end: CivilDate) -> int {
    let diff = (end.year - start.year) * 12 + (end.month - start.month);
    if diff >= 1 { diff } else { 1 }
}

/// Months from `start` to `end` counted by calendar month, at least one.
pub fn calculate_term_months(start: CivilDate, end: CivilDate) -> (r: i32)
    requires
        is_valid(start),
        is_valid(end),
    ensures
        r == term_months(start, end),
{
    let diff: i32 = (end.year - start.year) * 12 + (end.month as i32 - start.month as i32);
    if diff >= 1 { diff } else { 1 }
}

/// The date `months` months after `date` as the schedule computes it: the year
/// advances by `(month + months) / 13`, the month wraps within the year, the
/// day is kept; when that date does not exist the given date is kept.
pub open spec fn shifted_date(date: CivilDate, months: int) -> CivilDate {
    let year = date.year + (date.month + months) / 13;
    let month = ((date.month + months - 1) % 12) + 1;
    if valid_date(year, month, date.day as int) {
        CivilDate { year: year as i32, month: month as u32, day: date.day }
    } else {
        date
    }
}

/// `months` months after `date` (see `shifted_date`). The count is read as
/// an unsigned 32-bit number, so a negative count stands for the unsigned
/// number with the same bits; the month plus that number must fit in 32
/// bits.
pub fn add_months(date: CivilDate, months: i32) -> (r: CivilDate)
    requires
        is_valid(date),
        date.month + (months as u32) <= u32::MAX,
    ensures
        r == shifted_date(date, (months as u32) as int),
        0 <= months ==> r == shifted_date(date, months as int),
{
    assert(0 <= months ==> months as u32 == months) by (bit_vector);
    let m: u32 = months as u32;
    let year: i32 = date.year + ((date.month + m) / 13) as i32;
    let month: u32 = ((date.month + m - 1) % 12) + 1;
    if date_exists(year, month, date.day) {
        CivilDate { year, month, day: date.day }
    } else {
        date
    }
}

/// Monthly base payment of a schedule: the fair value spread evenly over the
/// term, rounded toward zero.
pub fn base_payment(fair_value: i64, term_months: i32) -> (r: i64)
    requires
        term_months != 0,
        !(fair_value == i64::MIN && term_months == -1),
    ensures
        r == div_toward_zero(fair_value as int, term_months as int),
{
    div_i64_truncating(fair_value, term_months as i64)
}

/// What the disclosure reads of one active lease.
#[derive(Debug, Clone, Copy, PartialEq, Eq, Structural)]
pub struct LeaseBalances {
    pub lease_type: LeaseType,
    /// Net book value of its right-of-use asset, when it has one.
    pub rou_net_book_value: Option<i64>,
    /// Outstanding balance of its liability, when it has one.
    pub liability_outstanding: Option<i64>,
}

/// The integer totals of a lease disclosure.
#[derive(Debug, Clone, Copy, PartialEq, Eq, Structural)]
pub struct DisclosureTotals {
    pub total_finance_leases: i32,
    pub total_operating_leases: i32,
    pub total_rou_assets: i64,
    pub total_lease_liabilities: i64,
}

pub open spec fn count_type(ls: Seq<LeaseBalances>, t: LeaseType) -> int
    decreases ls.len(),
{
    if ls.len() == 0 {
        0
    } else {
        count_type(ls.drop_last(), t) + if ls.last().lease_type == t { 1int } else { 0int }
    }
}

pub open spec fn rou_total(ls: Seq<LeaseBalances>) -> int
    decreases ls.len(),
{
    if ls.len() == 0 {
        0
    } else {
        rou_total(ls.drop_last()) + match ls.last().rou_net_book_value {
            Some(v) => v as int,
            None => 0,
        }
    }
}

pub open spec fn liability_total(ls: Seq<LeaseBalances>) -> int
    decreases ls.len(),
{
    if ls.len() == 0 {
        0
    } else {
        liability_total(ls.drop_last()) + match ls.last().liability_outstanding {
            Some(v) => v as int,
            None => 0,
        }
    }
}

/// Every running sum of a disclosure fits in 64 bits.
pub open spec fn sums_fit(ls: Seq<LeaseBalances>) -> bool {
    forall|k: int| 0 <= k <= ls.len() ==> {
        &&& i64::MIN <= #[trigger] rou_total(ls.take(k)) <= i64::MAX
        &&& i64::MIN <= liability_total(ls.take(k)) <= i64::MAX
    }
}

proof fn lemma_count_bounded(ls: Seq<LeaseBalances>, t: LeaseType)
    ensures
        0 <= count_type(ls, t) <= ls.len(),
    decreases ls.len(),
{
    if ls.len() > 0 {
        lemma_count_bounded(ls.drop_last(), t);
    }
}

/// What one lease adds to the disclosure: one to the count of its own type
/// only, its right-of-use value (zero without one) to the asset total, and
/// its outstanding liability (zero without one) to the liability total.
pub proof fn law_disclosure_of_one_lease(l: LeaseBalances, t: LeaseType)
    ensures
        count_type(seq![l], t) == (if l.lease_type == t { 1int } else { 0int }),
        rou_total(seq![l]) == (match l.rou_net_book_value { Some(v) => v as int, None => 0 }),
        liability_total(seq![l]) == (match l.liability_outstanding { Some(v) => v as int, None => 0 }),
{
    let e = Seq::<LeaseBalances>::empty();
    assert(seq![l].drop_last() =~= e);
    assert(seq![l].last() == l);
    assert(count_type(e, t) == 0 && rou_total(e) == 0 && liability_total(e) == 0);
}

/// The disclosure of two lists of leases together is the sum of their
/// disclosures.
pub proof fn law_disclosure_adds_up(a: Seq<LeaseBalances>, b: Seq<LeaseBalances>, t: LeaseType)
    ensures
        count_type(a + b, t) == count_type(a, t) + count_type(b, t),
        rou_total(a + b) == rou_total(a) + rou_total(b),
        liability_total(a + b) == liability_total(a) + liability_total(b),
    decreases b.len(),
{
    if b.len() == 0 {
        assert(a + b =~= a);
    } else {
        assert((a + b).drop_last() =~= a + b.drop_last());
        assert((a + b).last() == b.last());
        law_disclosure_adds_up(a, b.drop_last(), t);
    }
}

/// Each total reads only its own field: the lease counts depend only on the
/// leases' types, the asset total only on their right-of-use values and the
/// liability total only on their outstanding liabilities.
pub proof fn law_disclosure_fields_independent(a: Seq<LeaseBalances>, b: Seq<LeaseBalances>, t: LeaseType)
    requires
        a.len() == b.len(),
    ensures
        (forall|i: int| 0 <= i < a.len() ==> #[trigger] a[i].lease_type == b[i].lease_type)
            ==> count_type(a, t) == count_type(b, t),
        (forall|i: int| 0 <= i < a.len() ==> #[trigger] a[i].rou_net_book_value == b[i].rou_net_book_value)
            ==> rou_total(a) == rou_total(b),
        (forall|i: int| 0 <= i < a.len() ==> #[trigger] a[i].liability_outstanding == b[i].liability_outstanding)
            ==> liability_total(a) == liability_total(b),
    decreases a.len(),
{
    if a.len() > 0 {
        let (a1, b1) = (a.drop_last(), b.drop_last());
        law_disclosure_fields_independent(a1, b1, t);
        assert forall|i: int| 0 <= i < a1.len() implies a1[i] == a[i] && b1[i] == b[i] by {}
        let n = a.len() - 1;
        if forall|i: int| 0 <= i < a.len() ==> #[trigger] a[i].lease_type == b[i].lease_type {
            assert(a[n].lease_type == b[n].lease_type);
            assert(forall|i: int| 0 <= i < a1.len() ==> #[trigger] a1[i].lease_type == b1[i].lease_type);
        }
        if forall|i: int| 0 <= i < a.len() ==> #[trigger] a[i].rou_net_book_value == b[i].rou_net_book_value {
            assert(a[n].rou_net_book_value == b[n].rou_net_book_value);
            assert(forall|i: int| 0 <= i < a1.len() ==> #[trigger] a1[i].rou_net_book_value == b1[i].rou_net_book_value);
        }
        if forall|i: int| 0 <= i < a.len() ==> #[trigger] a[i].liability_outstanding == b[i].liability_outstanding {
            assert(a[n].liability_outstanding == b[n].liability_outstanding);
            assert(forall|i: int| 0 <= i < a1.len() ==> #[trigger] a1[i].liability_outstanding == b1[i].liability_outstanding);
        }
    }
}

/// Finance and operating lease counts and the summed asset and liability
/// balances of the active leases.
pub fn disclosure_totals(leases: &Vec<LeaseBalances>) -> (t: DisclosureTotals)
    requires
        leases.len() <= i32::MAX,
        sums_fit(leases@),
    ensures
        t.total_finance_leases == count_type(leases@, LeaseType::Finance),
        t.total_operating_leases == count_type(leases@, LeaseType::Operating),
        t.total_rou_assets == rou_total(leases@),
        t.total_lease_liabilities == liability_total(leases@),
{
    let ghost ls = leases@;
    let mut finance: i32 = 0;
    let mut operating: i32 = 0;
    let mut rou: i64 = 0;
    let mut liability: i64 = 0;
    let mut i: usize = 0;
    while i < leases.len()
        invariant
            i <= leases.len(),
            ls == leases@,
            leases.len() <= i32::MAX,
            sums_fit(ls),
            finance == count_type(ls.take(i as int), LeaseType::Finance),
            operating == count_type(ls.take(i as int), LeaseType::Operating),
            rou == rou_total(ls.take(i as int)),
            liability == liability_total(ls.take(i as int)),
        decreases leases.len() - i,
    {
        let l = leases[i];
        assert(ls.take(i + 1).drop_last() =~= ls.take(i as int));
        assert(ls.take(i + 1).last() == l);
        proof {
            lemma_count_bounded(ls.take(i as int), LeaseType::Finance);
            lemma_count_bounded(ls.take(i as int), LeaseType::Operating);
            assert(i64::MIN <= rou_total(ls.take(i + 1)) <= i64::MAX);
        }
        match l.lease_type {
            LeaseType::Finance => {
                finance = finance + 1;
            },
            LeaseType::Operating => {
                operating = operating + 1;
            },
            _ => {},
        }
        match l.rou_net_book_value {
            Some(v) => {
                rou = rou + v;
            },
            None => {},
        }
        match l.liability_outstanding {
            Some(v) => {
                liability = liability + v;
            },
            None => {},
        }
        i = i + 1;
    }
    assert(ls.take(leases.len() as int) =~= ls);
    DisclosureTotals {
        total_finance_leases: finance,
        total_operating_leases: operating,
        total_rou_assets: rou,
        total_lease_liabilities: liability,
    }
}

/// Storage handle of the lease module (holds no state).
pub struct SqliteLeaseRepository;

/// Lease operations.
pub struct LeaseService {
    repo: SqliteLeaseRepository,
}

/// What the asset and liability records read of a lease.
#[derive(Debug, Clone)]
pub struct LeaseFacts {
    pub lease_id: u128,
    pub lease_number: String,
    pub name: String,
    pub fair_value_at_commencement: i64,
    pub lease_term_months: i32,
    pub commencement_date: CivilDate,
    pub end_date: CivilDate,
    pub currency: String,
}

/// The right to use a leased asset, depreciated over the lease.
#[derive(Debug, Clone)]
pub struct RightOfUseAsset {
    pub id: u128,
    pub lease_id: u128,
    pub asset_number: String,
    pub name: String,
    pub initial_cost: i64,
    pub accumulated_depreciation: i64,
    pub impairment_loss: i64,
    pub net_book_value: i64,
    pub depreciation_method: DepreciationMethod,
    pub useful_life_months: i32,
    pub residual_value: i64,
    pub depreciation_start_date: CivilDate,
    pub depreciation_end_date: CivilDate,
    pub currency: String,
    pub status: RecordStatus,
    pub created_at_ms: i64,
    pub updated_at_ms: i64,
}

/// The obligation to pay a lease.
#[derive(Debug, Clone)]
pub struct LeaseLiability {
    pub id: u128,
    pub lease_id: u128,
    pub liability_number: String,
    pub initial_liability: i64,
    pub outstanding_balance: i64,
    pub interest_accrued: i64,
    pub principal_paid: i64,
    pub currency: String,
    pub calculation_date: CivilDate,
    pub amortization_method: AmortizationMethod,
    pub status: RecordStatus,
    pub created_at_ms: i64,
    pub updated_at_ms: i64,
}

/// What is paid for one period.
#[derive(Debug, Clone)]
pub struct RecordPaymentRequest {
    pub payment_date: CivilDate,
    pub due_date: CivilDate,
    pub period_start: CivilDate,
    pub period_end: CivilDate,
    pub period_number: i32,
    pub amount: i64,
    pub currency: String,
    pub notes: Option<String>,
}

/// A payment made on a lease.
#[derive(Debug, Clone)]
pub struct LeasePayment {
    pub id: u128,
    pub lease_id: u128,
    pub payment_number: String,
    pub payment_date: CivilDate,
    pub due_date: CivilDate,
    pub period_start: CivilDate,
    pub period_end: CivilDate,
    pub period_number: i32,
    pub fixed_payment: i64,
    pub variable_payment: i64,
    pub escalation_amount: i64,
    pub total_payment: i64,
    pub currency: String,
    pub payment_status: PaymentStatus,
    pub paid_date: Option<CivilDate>,
    pub paid_amount: Option<i64>,
    pub notes: Option<String>,
    pub created_at_ms: i64,
}

/// `LSE-`.
pub open spec fn lease_prefix() -> Seq<char> {
    seq!['L', 'S', 'E', '-']
}

/// `PAY-`.
pub open spec fn payment_prefix() -> Seq<char> {
    seq!['P', 'A', 'Y', '-']
}

/// `ROU-` followed by the lease number.
pub open spec fn rou_number(lease_number: Seq<char>) -> Seq<char> {
    seq!['R', 'O', 'U', '-'] + lease_number
}

/// `LIA-` followed by the lease number.
pub open spec fn liability_number_of(lease_number: Seq<char>) -> Seq<char> {
    seq!['L', 'I', 'A', '-'] + lease_number
}

/// `Right of Use Asset - ` followed by the lease's name.
pub open spec fn rou_name(name: Seq<char>) -> Seq<char> {
    "Right of Use Asset - "@ + name
}

/// A fresh lease number: `LSE-` and the text of a random identifier.
pub fn generate_lease_number() -> (r: String)
    ensures
        numbered_with(lease_prefix(), r@),
{
    let id = new_id();
    let r = String::from_str("LSE-").concat(uuid_text(id).as_str());
    proof {
        reveal_strlit("LSE-");
        assert("LSE-"@ =~= lease_prefix());
        assert(r@ == lease_prefix() + uuid_hyphenated(id));
    }
    r
}

impl LeaseService {
    /// The one value of the service, which holds no state.
    pub closed spec fn the_service() -> Self {
        LeaseService { repo: SqliteLeaseRepository }
    }
}

/// `LeaseService` holds no state: every value of it is the one that `new`
/// gives, so any two of them answer every call alike.
pub proof fn law_lease_service_is_stateless(a: LeaseService)
    ensures
        a == LeaseService::the_service(),
{
}

impl LeaseService {
    pub fn new() -> (s: Self)
        ensures
            s == LeaseService::the_service(),
    {
        LeaseService { repo: SqliteLeaseRepository }
    }

    /// The right-of-use asset of a lease: it costs the lease's fair value,
    /// nothing depreciated or impaired yet, depreciated straight-line over
    /// the lease's term and dates with no residual value.
    pub fn create_rou_asset(&self, lease: &LeaseFacts) -> (a: RightOfUseAsset)
        ensures
            a.lease_id == lease.lease_id,
            a.asset_number@ == rou_number(lease.lease_number@),
            a.name@ == rou_name(lease.name@),
            a.initial_cost == lease.fair_value_at_commencement,
            a.accumulated_depreciation == 0,
            a.impairment_loss == 0,
            a.net_book_value == lease.fair_value_at_commencement,
            a.depreciation_method == DepreciationMethod::StraightLine,
            a.useful_life_months == lease.lease_term_months,
            a.residual_value == 0,
            a.depreciation_start_date == lease.commencement_date,
            a.depreciation_end_date == lease.end_date,
            a.currency == lease.currency,
            a.status == RecordStatus::Active,
            a.updated_at_ms == a.created_at_ms,
    {
        let asset_number = String::from_str("ROU-").concat(lease.lease_number.as_str());
        let name = String::from_str("Right of Use Asset - ").concat(lease.name.as_str());
        proof {
            reveal_strlit("ROU-");
            assert("ROU-"@ =~= seq!['R', 'O', 'U', '-']);
        }
        let now = now_millis();
        RightOfUseAsset {
            id: new_id(),
            lease_id: lease.lease_id,
            asset_number,
            name,
            initial_cost: lease.fair_value_at_commencement,
            accumulated_depreciation: 0,
            impairment_loss: 0,
            net_book_value: lease.fair_value_at_commencement,
            depreciation_method: DepreciationMethod::StraightLine,
            useful_life_months: lease.lease_term_months,
            residual_value: 0,
            depreciation_start_date: lease.commencement_date,
            depreciation_end_date: lease.end_date,
            currency: lease.currency.clone(),
            status: RecordStatus::Active,
            created_at_ms: now,
            updated_at_ms: now,
        }
    }

    /// The liability of a lease, computed today (UTC): the whole fair value
    /// is outstanding, nothing accrued or paid, amortized by the effective
    /// interest method.
    pub fn create_liability(&self, lease: &LeaseFacts) -> (l: LeaseLiability)
        ensures
            l.lease_id == lease.lease_id,
            l.liability_number@ == liability_number_of(lease.lease_number@),
            l.initial_liability == lease.fair_value_at_commencement,
            l.outstanding_balance == lease.fair_value_at_commencement,
            l.interest_accrued == 0,
            l.principal_paid == 0,
            l.currency == lease.currency,
            in_time_range(l.created_at_ms as int),
            is_valid(l.calculation_date),
            day_number(l.calculation_date) == (l.created_at_ms as int) / (MILLIS_PER_DAY as int),
            l.amortization_method == AmortizationMethod::EffectiveInterest,
            l.status == RecordStatus::Active,
            l.updated_at_ms == l.created_at_ms,
    {
        let liability_number = String::from_str("LIA-").concat(lease.lease_number.as_str());
        proof {
            reveal_strlit("LIA-");
            assert("LIA-"@ =~= seq!['L', 'I', 'A', '-']);
        }
        let now = now_millis();
        LeaseLiability {
            id: new_id(),
            lease_id: lease.lease_id,
            liability_number,
            initial_liability: lease.fair_value_at_commencement,
            outstanding_balance: lease.fair_value_at_commencement,
            interest_accrued: 0,
            principal_paid: 0,
            currency: lease.currency.clone(),
            calculation_date: utc_date_of(now),
            amortization_method: AmortizationMethod::EffectiveInterest,
            status: RecordStatus::Active,
            created_at_ms: now,
            updated_at_ms: now,
        }
    }

    /// A paid payment of the requested amount, all of it fixed, paid on its
    /// payment date.
    pub fn record_payment(&self, lease_id: u128, req: RecordPaymentRequest) -> (p: LeasePayment)
        ensures
            p.lease_id == lease_id,
            numbered_with(payment_prefix(), p.payment_number@),
            p.payment_date == req.payment_date,
            p.due_date == req.due_date,
            p.period_start == req.period_start,
            p.period_end == req.period_end,
            p.period_number == req.period_number,
            p.fixed_payment == req.amount,
            p.variable_payment == 0,
            p.escalation_amount == 0,
            p.total_payment == req.amount,
            p.currency == req.currency,
            p.payment_status == PaymentStatus::Paid,
            p.paid_date == Some(req.payment_date),
            p.paid_amount == Some(req.amount),
            p.notes == req.notes,
    {
        let id = new_id();
        let payment_number = String::from_str("PAY-").concat(uuid_text(id).as_str());
        proof {
            reveal_strlit("PAY-");
            assert("PAY-"@ =~= payment_prefix());
            assert(payment_number@ == payment_prefix() + uuid_hyphenated(id));
        }
        LeasePayment {
            id: new_id(),
            lease_id,
            payment_number,
            payment_date: req.payment_date,
            due_date: req.due_date,
            period_start: req.period_start,
            period_end: req.period_end,
            period_number: req.period_number,
            fixed_payment: req.amount,
            variable_payment: 0,
            escalation_amount: 0,
            total_payment: req.amount,
            currency: req.currency,
            payment_status: PaymentStatus::Paid,
            paid_date: Some(req.payment_date),
            paid_amount: Some(req.amount),
            notes: req.notes,
            created_at_ms: now_millis(),
        }
    }
}

} // verus!
