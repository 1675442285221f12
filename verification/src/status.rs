//! The states that a job, a file of a job, or a connection passes through.

use vstd::prelude::*;

verus! {

/// Where a job, one of its files, or a connection stands.
///
/// A job and a file move `InProgress` to `Completed` or `Failed`; a
/// connection moves `Connecting` to `Connected` to `Disconnected`. Nothing
/// ever moves back.
#[derive(Clone, Copy, Debug, PartialEq, Eq, Structural)]
pub enum Status {
    Connecting,
    Connected,
    InProgress,
    Completed,
    Failed,
    Disconnected,
}

impl Status {
    /// The name of the state as it is written on the wire.
    pub open spec fn name(self) -> Seq<char> {
        match self {
            Status::Connecting => "Connecting"@,
            Status::Connected => "Connected"@,
            Status::InProgress => "InProgress"@,
            Status::Completed => "Completed"@,
            Status::Failed => "Failed"@,
            Status::Disconnected => "Disconnected"@,
        }
    }

    /// How far along a state is: states that nothing follows rank highest.
    pub open spec fn rank(self) -> nat {
        match self {
            Status::Connecting => 0,
            Status::Connected => 1,
            Status::InProgress => 2,
            Status::Completed => 3,
            Status::Failed => 3,
            Status::Disconnected => 3,
        }
    }

    /// `Completed`, `Failed` and `Disconnected` are final.
    pub open spec fn terminal(self) -> bool {
        self == Status::Completed || self == Status::Failed || self == Status::Disconnected
    }

    /// Whether a value in state `self` may next be seen in state `next`:
    /// a final state is kept for good, any other state may only advance.
    pub open spec fn may_become(self, next: Status) -> bool {
        if self.terminal() {
            next == self
        } else {
            self.rank() <= next.rank()
        }
    }

    /// The wire name of the state.
    pub fn as_str(&self) -> (r: &'static str)
        ensures
            r@ == self.name(),
    {
        match self {
            Status::Connecting => "Connecting",
            Status::Connected => "Connected",
            Status::InProgress => "InProgress",
            Status::Completed => "Completed",
            Status::Failed => "Failed",
            Status::Disconnected => "Disconnected",
        }
    }

    /// Whether the state is final.
    pub fn is_terminal(&self) -> (r: bool)
        ensures
            r == self.terminal(),
    {
        match self {
            Status::Completed | Status::Failed | Status::Disconnected => true,
            _ => false,
        }
    }
}

/// Moving on is transitive: what may be reached in two moves may be reached
/// in one, so a state once left is never seen again.
pub proof fn lemma_may_become_transitive(a: Status, b: Status, c: Status)
    requires
        a.may_become(b),
        b.may_become(c),
    ensures
        a.may_become(c),
{
}

} // verus!
