//! The one operation that may be running, and what closing the window does meanwhile.
use vstd::prelude::*;

verus! {

/// What is running.
#[derive(Debug, Clone, Copy, PartialEq, Eq, Structural)]
pub enum OperationKind {
    Idle,
    Scan,
    Repair,
    Migration,
    TrustedInstaller,
    Export,
    Unknown,
}

/// What a request to close the window leads to.
#[derive(Debug, Clone, Copy, PartialEq, Eq, Structural)]
pub enum ClosePolicy {
    Allow,
    Block,
    CancelMigration,
}

/// The part of the application that a status is about.
#[derive(Debug, Clone, Copy, PartialEq, Eq, Structural)]
pub enum OperatorStatusOperation {
    Application,
    Scan,
    Repair,
    Migration,
    TrustedInstaller,
    Export,
    Audit,
}

impl OperationKind {
    /// The kind that a stored number stands for.
    pub open spec fn of(value: u8) -> OperationKind {
        if value == 0 {
            OperationKind::Idle
        } else if value == 1 {
            OperationKind::Scan
        } else if value == 2 {
            OperationKind::Repair
        } else if value == 3 {
            OperationKind::Migration
        } else if value == 4 {
            OperationKind::TrustedInstaller
        } else if value == 5 {
            OperationKind::Export
        } else {
            OperationKind::Unknown
        }
    }

    pub fn from_raw(value: u8) -> (r: OperationKind)
        ensures
            r == OperationKind::of(value),
    {
        match value {
            0 => OperationKind::Idle,
            1 => OperationKind::Scan,
            2 => OperationKind::Repair,
            3 => OperationKind::Migration,
            4 => OperationKind::TrustedInstaller,
            5 => OperationKind::Export,
            _ => OperationKind::Unknown,
        }
    }

    /// The number that stands for the kind.
    pub fn to_raw(self) -> (r: u8)
        ensures
            OperationKind::of(r) == self,
    {
        match self {
            OperationKind::Idle => 0,
            OperationKind::Scan => 1,
            OperationKind::Repair => 2,
            OperationKind::Migration => 3,
            OperationKind::TrustedInstaller => 4,
            OperationKind::Export => 5,
            OperationKind::Unknown => 255,
        }
    }

    /// The window may close only where nothing runs; a migration is cancelled first.
    pub open spec fn policy(self) -> ClosePolicy {
        match self {
            OperationKind::Idle => ClosePolicy::Allow,
            OperationKind::Migration => ClosePolicy::CancelMigration,
            _ => ClosePolicy::Block,
        }
    }

    pub fn close_policy(self) -> (r: ClosePolicy)
        ensures
            r == self.policy(),
    {
        match self {
            OperationKind::Scan | OperationKind::Repair | OperationKind::TrustedInstaller
            | OperationKind::Export | OperationKind::Unknown => ClosePolicy::Block,
            OperationKind::Migration => ClosePolicy::CancelMigration,
            OperationKind::Idle => ClosePolicy::Allow,
        }
    }

    /// The part of the application that the kind belongs to.
    pub open spec fn part(self) -> OperatorStatusOperation {
        match self {
            OperationKind::Scan => OperatorStatusOperation::Scan,
            OperationKind::Repair => OperatorStatusOperation::Repair,
            OperationKind::Migration => OperatorStatusOperation::Migration,
            OperationKind::TrustedInstaller => OperatorStatusOperation::TrustedInstaller,
            OperationKind::Export => OperatorStatusOperation::Export,
            _ => OperatorStatusOperation::Application,
        }
    }

    pub fn status_operation(self) -> (r: OperatorStatusOperation)
        ensures
            r == self.part(),
    {
        match self {
            OperationKind::Scan => OperatorStatusOperation::Scan,
            OperationKind::Repair => OperatorStatusOperation::Repair,
            OperationKind::Migration => OperatorStatusOperation::Migration,
            OperationKind::TrustedInstaller => OperatorStatusOperation::TrustedInstaller,
            OperationKind::Export => OperatorStatusOperation::Export,
            OperationKind::Idle | OperationKind::Unknown => OperatorStatusOperation::Application,
        }
    }
}

/// The operation that is running, and whether the window closes behind it.
#[derive(Debug, Clone, Copy, PartialEq, Eq, Structural)]
pub struct OperationState {
    pub active: OperationKind,
    pub close_after_finish: bool,
}

impl OperationState {
    pub fn new() -> (r: OperationState)
        ensures
            r == (OperationState { active: OperationKind::Idle, close_after_finish: false }),
    {
        OperationState { active: OperationKind::Idle, close_after_finish: false }
    }

    /// Begins an operation, unless one is running.
    pub fn try_begin(&mut self, operation: OperationKind) -> (r: bool)
        ensures
            r == (old(self).active is Idle),
            *final(self) == (if r {
                OperationState { active: operation, ..*old(self) }
            } else {
                *old(self)
            }),
    {
        if self.active == OperationKind::Idle {
            self.active = operation;
            true
        } else {
            false
        }
    }

    pub fn active_operation(&self) -> (r: OperationKind)
        ensures
            r == self.active,
    {
        self.active
    }

    /// Has the window close behind the operation.
    pub fn request_close_after_finish(&mut self)
        ensures
            *final(self) == (OperationState { close_after_finish: true, ..*old(self) }),
    {
        self.close_after_finish = true;
    }

    /// Cancels what begins behind a request to close.
    pub fn cancel_if_close_deferred(&self, cancellation: &mut bool)
        ensures
            *final(cancellation) == (*old(cancellation) || self.close_after_finish),
    {
        if self.close_after_finish {
            *cancellation = true;
        }
    }

    /// Ends the operation and says whether the window closes now; the request is used up.
    pub fn finish(&mut self) -> (r: bool)
        ensures
            r == old(self).close_after_finish,
            *final(self) == (OperationState {
                active: OperationKind::Idle,
                close_after_finish: false,
            }),
    {
        let close = self.close_after_finish;
        self.active = OperationKind::Idle;
        self.close_after_finish = false;
        close
    }
}

/// While an operation is running the window does not simply close: it stays, or what
/// runs is cancelled first.
pub proof fn nothing_running_is_closed_over(state: OperationState)
    ensures
        state.active.policy() is Allow <==> state.active is Idle,
{
}

/// What runs decides what closing the window does: nothing runs, and it closes; a migration
/// runs, and it is cancelled first; anything else runs, and the window stays.
pub proof fn what_runs_decides_what_closing_does(kind: OperationKind)
    ensures
        kind.policy() is Allow <==> kind is Idle,
        kind.policy() is CancelMigration <==> kind is Migration,
        kind.policy() is Block <==> kind is Scan || kind is Repair || kind is TrustedInstaller
            || kind is Export || kind is Unknown,
{
}

/// Operations are told apart: by their numbers, of which those that stand for none are
/// unknown, and by the part of the application that tells about them.
pub proof fn operations_are_told_apart(a: u8, b: u8, x: OperationKind, y: OperationKind)
    ensures
        OperationKind::of(a) == OperationKind::of(b) <==> a == b || a > 5 && b > 5,
        OperationKind::of(a) is Idle <==> a == 0,
        OperationKind::of(a) is Unknown <==> a > 5,
        !(x is Idle) && !(x is Unknown) ==> (x.part() == y.part() <==> x == y),
        x is Idle || x is Unknown <==> x.part() is Application,
        x is Scan <==> x.part() is Scan,
        x is Repair <==> x.part() is Repair,
        x is Migration <==> x.part() is Migration,
        x is TrustedInstaller <==> x.part() is TrustedInstaller,
        x is Export <==> x.part() is Export,
{
}

} // verus!
