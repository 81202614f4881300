//! Leave requests: who may decide a request and what a decision does to its
//! status. (Day balances are fractional and kept outside the library.)
use vstd::prelude::*;

verus! {

#[derive(Debug, Clone, Copy, PartialEq, Eq, Structural)]
pub enum LeaveType {
    AnnualLeave,
    SickLeave,
    MaternityLeave,
    PaternityLeave,
    UnpaidLeave,
    Bereavement,
}

#[derive(Debug, Clone, Copy, PartialEq, Eq, Structural)]
pub enum LeaveStatus {
    Pending,
    Approved,
    Rejected,
    Cancelled,
}

/// Why a leave decision was refused.
#[derive(Debug, Clone, Copy, PartialEq, Eq, Structural)]
pub enum LeaveError {
    OnlyPendingCanBeApproved,
    OnlyPendingCanBeRejected,
    MismatchedBalance,
    InsufficientBalance,
}

impl LeaveError {
    /// The message shown for the refusal.
    pub fn message(&self) -> (r: &'static str)
        ensures
            r@ == leave_error_message(*self),
    {
        match self {
            LeaveError::OnlyPendingCanBeApproved => "Only pending requests can be approved.",
            LeaveError::OnlyPendingCanBeRejected => "Only pending requests can be rejected.",
            LeaveError::MismatchedBalance => "Mismatched leave balance provided.",
            LeaveError::InsufficientBalance => "Insufficient leave balance.",
        }
    }
}

pub open spec fn leave_error_message(e: LeaveError) -> Seq<char> {
    match e {
        LeaveError::OnlyPendingCanBeApproved => "Only pending requests can be approved."@,
        LeaveError::OnlyPendingCanBeRejected => "Only pending requests can be rejected."@,
        LeaveError::MismatchedBalance => "Mismatched leave balance provided."@,
        LeaveError::InsufficientBalance => "Insufficient leave balance."@,
    }
}

/// Who a request or a balance belongs to, and for which kind of leave.
#[derive(Debug, Clone, Copy, PartialEq, Eq, Structural)]
pub struct LeaveOwner {
    pub employee_id: u128,
    pub leave_type: LeaveType,
}

/// The outcome of deciding a request in state `status`, owned by `request`,
/// against the balance owned by `balance`: only pending requests are decided,
/// only against the same employee's balance for the same kind of leave.
pub open spec fn decision(status: LeaveStatus, request: LeaveOwner, balance: LeaveOwner, approve: bool)
    -> Result<LeaveStatus, LeaveError> {
    if status != LeaveStatus::Pending {
        Err(if approve { LeaveError::OnlyPendingCanBeApproved } else { LeaveError::OnlyPendingCanBeRejected })
    } else if request.leave_type != balance.leave_type || request.employee_id != balance.employee_id {
        Err(LeaveError::MismatchedBalance)
    } else {
        Ok(if approve { LeaveStatus::Approved } else { LeaveStatus::Rejected })
    }
}

/// Approving a request: its new status, or why it cannot be approved.
pub fn approve(status: LeaveStatus, request: LeaveOwner, balance: LeaveOwner) -> (r: Result<LeaveStatus, LeaveError>)
    ensures
        r == decision(status, request, balance, true),
{
    if status != LeaveStatus::Pending {
        return Err(LeaveError::OnlyPendingCanBeApproved);
    }
    if request.leave_type != balance.leave_type || request.employee_id != balance.employee_id {
        return Err(LeaveError::MismatchedBalance);
    }
    Ok(LeaveStatus::Approved)
}

/// Rejecting a request: its new status, or why it cannot be rejected.
pub fn reject(status: LeaveStatus, request: LeaveOwner, balance: LeaveOwner) -> (r: Result<LeaveStatus, LeaveError>)
    ensures
        r == decision(status, request, balance, false),
{
    if status != LeaveStatus::Pending {
        return Err(LeaveError::OnlyPendingCanBeRejected);
    }
    if request.leave_type != balance.leave_type || request.employee_id != balance.employee_id {
        return Err(LeaveError::MismatchedBalance);
    }
    Ok(LeaveStatus::Rejected)
}

/// A request is decided at most once: once a decision succeeds, neither
/// approving nor rejecting it again succeeds.
pub proof fn law_decided_once(status: LeaveStatus, request: LeaveOwner, balance: LeaveOwner, first: bool, again: bool)
    requires
        decision(status, request, balance, first) is Ok,
    ensures
        decision(decision(status, request, balance, first).unwrap(), request, balance, again) is Err,
{
}

} // verus!
