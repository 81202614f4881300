//! Mentorship: programs, mentor-mentee pairs and their goals. (The progress
//! percentage is fractional and computed outside the library from the count
//! of achieved goals.)
use vstd::prelude::*;
use vstd::string::StringExecFns;
use crate::common::{new_id, now_millis, CivilDate};

verus! {

#[derive(Debug, Clone, Copy, PartialEq, Eq, Structural)]
pub enum ProgramStatus {
    Draft,
    Active,
    Archived,
}

#[derive(Debug, Clone, Copy, PartialEq, Eq, Structural)]
pub enum PairStatus {
    Matched,
    Active,
    Completed,
    Terminated,
}

#[derive(Debug, Clone, Copy, PartialEq, Eq, Structural)]
pub enum GoalStatus {
    InProgress,
    Achieved,
    Aborted,
}

/// Instants are milliseconds since the Unix epoch.
#[derive(Debug, Clone)]
pub struct MentorshipProgram {
    pub id: u128,
    pub title: String,
    pub description: String,
    pub start_date: CivilDate,
    pub end_date: CivilDate,
    pub status: ProgramStatus,
    pub created_at_ms: i64,
}

#[derive(Debug, Clone)]
pub struct MentorshipPair {
    pub id: u128,
    pub program_id: u128,
    pub mentor_id: u128,
    pub mentee_id: u128,
    pub status: PairStatus,
    pub matching_date_ms: i64,
    pub completion_date_ms: Option<i64>,
    pub notes: Option<String>,
}

#[derive(Debug, Clone)]
pub struct MentorshipGoal {
    pub id: u128,
    pub pair_id: u128,
    pub title: String,
    pub description: String,
    pub status: GoalStatus,
    pub target_date: Option<CivilDate>,
    pub achieved_at_ms: Option<i64>,
}

impl MentorshipProgram {
    /// A new draft program with an empty description.
    pub fn new(title: String, start_date: CivilDate, end_date: CivilDate) -> (p: Self)
        ensures
            p.title == title,
            p.description@.len() == 0,
            p.start_date == start_date,
            p.end_date == end_date,
            p.status == ProgramStatus::Draft,
    {
        MentorshipProgram {
            id: new_id(),
            title,
            description: String::new(),
            start_date,
            end_date,
            status: ProgramStatus::Draft,
            created_at_ms: now_millis(),
        }
    }

    pub fn activate(&mut self)
        ensures
            final(self).status == ProgramStatus::Active,
            final(self).id == old(self).id,
            final(self).title == old(self).title,
    {
        self.status = ProgramStatus::Active;
    }
}

impl MentorshipPair {
    /// A newly matched pair of program `program_id`.
    pub fn new(program_id: u128, mentor_id: u128, mentee_id: u128) -> (p: Self)
        ensures
            p.program_id == program_id,
            p.mentor_id == mentor_id,
            p.mentee_id == mentee_id,
            p.status == PairStatus::Matched,
            p.completion_date_ms is None,
            p.notes is None,
    {
        MentorshipPair {
            id: new_id(),
            program_id,
            mentor_id,
            mentee_id,
            status: PairStatus::Matched,
            matching_date_ms: now_millis(),
            completion_date_ms: None,
            notes: None,
        }
    }

    pub fn start(&mut self)
        ensures
            *final(self) == (MentorshipPair { status: PairStatus::Active, ..*old(self) }),
    {
        self.status = PairStatus::Active;
    }

    /// Completes the pair now.
    pub fn complete(&mut self)
        ensures
            final(self).status == PairStatus::Completed,
            final(self).completion_date_ms is Some,
            *final(self) == (MentorshipPair {
                status: PairStatus::Completed,
                completion_date_ms: final(self).completion_date_ms,
                ..*old(self)
            }),
    {
        self.status = PairStatus::Completed;
        self.completion_date_ms = Some(now_millis());
    }
}

impl MentorshipGoal {
    /// A new goal in progress, without target or achievement date.
    pub fn new(pair_id: u128, title: String, description: String) -> (g: Self)
        ensures
            g.pair_id == pair_id,
            g.title == title,
            g.description == description,
            g.status == GoalStatus::InProgress,
            g.target_date is None,
            g.achieved_at_ms is None,
    {
        MentorshipGoal {
            id: new_id(),
            pair_id,
            title,
            description,
            status: GoalStatus::InProgress,
            target_date: None,
            achieved_at_ms: None,
        }
    }

    /// Marks the goal achieved now.
    pub fn mark_achieved(&mut self)
        ensures
            final(self).status == GoalStatus::Achieved,
            final(self).achieved_at_ms is Some,
            *final(self) == (MentorshipGoal {
                status: GoalStatus::Achieved,
                achieved_at_ms: final(self).achieved_at_ms,
                ..*old(self)
            }),
    {
        self.status = GoalStatus::Achieved;
        self.achieved_at_ms = Some(now_millis());
    }
}

pub struct MentorshipService {}

/// Number of achieved goals.
pub open spec fn achieved_count(goals: Seq<MentorshipGoal>) -> int
    decreases goals.len(),
{
    if goals.len() == 0 {
        0
    } else {
        achieved_count(goals.drop_last()) + if goals.last().status == GoalStatus::Achieved { 1int } else { 0int }
    }
}

impl MentorshipService {
    /// The one value of the service, which holds no state.
    pub closed spec fn the_service() -> Self {
        MentorshipService {}
    }
}

/// `MentorshipService` holds no state: every value of it is the one that `new`
/// gives, so any two of them answer every call alike.
pub proof fn law_mentorship_service_is_stateless(a: MentorshipService)
    ensures
        a == MentorshipService::the_service(),
{
}

impl MentorshipService {
    pub fn new() -> (s: Self)
        ensures
            s == MentorshipService::the_service(),
    {
        MentorshipService {}
    }

    /// Number of achieved goals among `goals` (the numerator of a program's
    /// progress).
    pub fn achieved_goals(&self, goals: &[MentorshipGoal]) -> (r: usize)
        ensures
            r == achieved_count(goals@),
            r <= goals.len(),
    {
        let ghost g = goals@;
        let mut n: usize = 0;
        let mut i: usize = 0;
        while i < goals.len()
            invariant
                i <= goals.len(),
                g == goals@,
                n == achieved_count(g.take(i as int)),
                n <= i,
            decreases goals.len() - i,
        {
            assert(g.take(i + 1).drop_last() =~= g.take(i as int));
            if goals[i].status == GoalStatus::Achieved {
                n = n + 1;
            }
            i = i + 1;
        }
        assert(g.take(goals.len() as int) =~= g);
        n
    }
}

} // verus!
