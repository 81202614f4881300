//! Legal matters: opening a matter, adding notes and moving it through its
//! states. (Expense amounts are fractional and kept outside the library.)
use vstd::prelude::*;
use crate::common::{new_id, now_millis};

verus! {

#[derive(Debug, Clone, Copy, PartialEq, Eq, Structural)]
pub enum MatterStatus {
    Open,
    InProgress,
    OnHold,
    Settled,
    Closed,
}

#[derive(Debug, Clone, Copy, PartialEq, Eq, Structural)]
pub enum MatterCategory {
    Litigation,
    Corporate,
    IntellectualProperty,
    Employment,
    Regulatory,
    Contract,
    Other,
}

#[derive(Debug, Clone)]
pub struct MatterNote {
    pub id: u128,
    pub matter_id: u128,
    pub author_id: u128,
    pub content: String,
    pub created_at_ms: i64,
    pub updated_at_ms: i64,
}

/// A legal matter (its expenses travel beside it). Instants are milliseconds
/// since the Unix epoch.
#[derive(Debug, Clone)]
pub struct LegalMatter {
    pub id: u128,
    pub case_number: String,
    pub title: String,
    pub description: String,
    pub category: MatterCategory,
    pub status: MatterStatus,
    pub internal_owner_id: u128,
    pub external_counsel: Option<String>,
    pub notes: Vec<MatterNote>,
    pub opened_at_ms: i64,
    pub closed_at_ms: Option<i64>,
    pub created_at_ms: i64,
    pub updated_at_ms: i64,
}

/// Whether a matter in this state is over (its closing date is then set).
pub open spec fn ends_matter(s: MatterStatus) -> bool {
    s == MatterStatus::Closed || s == MatterStatus::Settled
}

impl LegalMatter {
    /// A new open matter without counsel, notes or closing date.
    pub fn new(case_number: String, title: String, description: String, category: MatterCategory, internal_owner_id: u128)
        -> (m: Self)
        ensures
            m.case_number == case_number,
            m.title == title,
            m.description == description,
            m.category == category,
            m.status == MatterStatus::Open,
            m.internal_owner_id == internal_owner_id,
            m.external_counsel is None,
            m.notes.len() == 0,
            m.closed_at_ms is None,
            m.opened_at_ms == m.created_at_ms,
            m.created_at_ms == m.updated_at_ms,
    {
        let now = now_millis();
        LegalMatter {
            id: new_id(),
            case_number,
            title,
            description,
            category,
            status: MatterStatus::Open,
            internal_owner_id,
            external_counsel: None,
            notes: Vec::new(),
            opened_at_ms: now,
            closed_at_ms: None,
            created_at_ms: now,
            updated_at_ms: now,
        }
    }

    /// Adds a note by `author_id`, dated now; the matter is updated then.
    pub fn add_note(&mut self, author_id: u128, content: String)
        ensures
            final(self).notes.len() == old(self).notes.len() + 1,
            final(self).notes@.drop_last() == old(self).notes@,
            final(self).notes@.last().matter_id == old(self).id,
            final(self).notes@.last().author_id == author_id,
            final(self).notes@.last().content == content,
            final(self).notes@.last().created_at_ms == final(self).updated_at_ms,
            final(self).notes@.last().updated_at_ms == final(self).updated_at_ms,
            final(self).id == old(self).id,
            final(self).status == old(self).status,
            final(self).closed_at_ms == old(self).closed_at_ms,
    {
        let now = now_millis();
        let note = MatterNote {
            id: new_id(),
            matter_id: self.id,
            author_id,
            content,
            created_at_ms: now,
            updated_at_ms: now,
        };
        self.notes.push(note);
        self.updated_at_ms = now;
        assert(self.notes@.drop_last() =~= old(self).notes@);
    }

    /// Moves the matter to `new_status` now; closing or settling it sets its
    /// closing date.
    pub fn update_status(&mut self, new_status: MatterStatus)
        ensures
            final(self).status == new_status,
            ends_matter(new_status) ==> final(self).closed_at_ms == Some(final(self).updated_at_ms),
            !ends_matter(new_status) ==> final(self).closed_at_ms == old(self).closed_at_ms,
            final(self).notes@ == old(self).notes@,
            final(self).id == old(self).id,
    {
        let now = now_millis();
        self.status = new_status;
        if self.status == MatterStatus::Closed || self.status == MatterStatus::Settled {
            self.closed_at_ms = Some(now);
        }
        self.updated_at_ms = now;
    }
}

} // verus!
