//! Session admission for the advertising loop: one session slot, and a
//! connection that arrives while it is taken is dropped, not queued.
use vstd::prelude::*;

verus! {

/// What the advertising loop does with a new connection.
#[derive(Clone, Copy, Debug, PartialEq, Eq, Structural)]
pub enum Admission {
    /// Start a session for it.
    Spawn,
    /// The slot is taken: log and drop the connection.
    Drop,
}

/// The single session slot.
#[derive(Clone, Copy, Debug, PartialEq, Eq, Structural)]
pub struct Supervisor {
    pub session_active: bool,
}

impl Supervisor {
    /// Next state and decision when a peer completes connection setup.
    pub open spec fn connect(self) -> (Supervisor, Admission) {
        if self.session_active {
            (self, Admission::Drop)
        } else {
            (Supervisor { session_active: true }, Admission::Spawn)
        }
    }

    /// No session running.
    pub fn new() -> (r: Supervisor)
        ensures
            !r.session_active,
    {
        Supervisor { session_active: false }
    }

    /// Decides on a connection that has just been established.
    pub fn on_connected(&mut self) -> (r: Admission)
        ensures
            (*final(self), r) == old(self).connect(),
    {
        if self.session_active {
            Admission::Drop
        } else {
            self.session_active = true;
            Admission::Spawn
        }
    }

    /// The running session has ended; the slot is free again.
    pub fn on_session_ended(&mut self)
        ensures
            !final(self).session_active,
    {
        self.session_active = false;
    }
}

/// Two connections back to back, with no session ending between them, never
/// both start a session: the second is dropped.
pub proof fn lemma_back_to_back_single_session(s: Supervisor)
    ensures
        s.connect().0.session_active,
        s.connect().0.connect().1 == Admission::Drop,
        !(s.connect().1 == Admission::Spawn && s.connect().0.connect().1 == Admission::Spawn),
{
}

} // verus!
