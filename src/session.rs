//! The life of one consumer session: built, active while envelopes are
//! received and finished, closed for good. The session never hands out more
//! unfinished envelopes than its in-flight bound allows.

use vstd::prelude::*;

verus! {

#[derive(Clone, Copy, Debug, PartialEq, Eq, Structural)]
pub enum Phase {
    /// Constructed; nothing received yet.
    Built,
    /// Receiving and finishing envelopes.
    Active,
    /// Dropped by its owner; nothing more is received.
    Closed,
}

/// The state of one consumer session.
pub struct Session {
    pub phase: Phase,
    /// How many received envelopes may be unfinished at once.
    pub max_in_flight: u32,
    /// How many received envelopes are not finished yet.
    pub in_flight: u32,
}

impl Session {
    pub open spec fn wf(&self) -> bool {
        &&& self.in_flight <= self.max_in_flight
        &&& self.phase == Phase::Built ==> self.in_flight == 0
    }

    /// Whether a receive may hand out another envelope now.
    pub open spec fn spec_can_receive(&self) -> bool {
        self.phase != Phase::Closed && self.in_flight < self.max_in_flight
    }

    /// A session that allows `max_in_flight` unfinished envelopes.
    pub fn new(max_in_flight: u32) -> (r: Session)
        ensures
            r.wf(),
            r.phase == Phase::Built,
            r.max_in_flight == max_in_flight,
            r.in_flight == 0,
    {
        Session { phase: Phase::Built, max_in_flight, in_flight: 0 }
    }

    /// Whether a receive may hand out another envelope now: the session is
    /// not closed and fewer than `max_in_flight` envelopes are unfinished.
    pub fn can_receive(&self) -> (r: bool)
        ensures
            r == self.spec_can_receive(),
    {
        self.phase != Phase::Closed && self.in_flight < self.max_in_flight
    }

    /// Records that an envelope was handed out; refused, leaving the session
    /// as it was, when `can_receive` is false.
    pub fn on_receive(&mut self) -> (r: bool)
        requires
            old(self).wf(),
        ensures
            final(self).wf(),
            r == old(self).spec_can_receive(),
            r ==> *final(self) == (Session {
                phase: Phase::Active,
                in_flight: (old(self).in_flight + 1) as u32,
                ..*old(self)
            }),
            !r ==> *final(self) == *old(self),
    {
        if !self.can_receive() {
            return false;
        }
        self.phase = Phase::Active;
        self.in_flight = self.in_flight + 1;
        true
    }

    /// Records that an envelope was finished; refused, leaving the session
    /// as it was, when none is unfinished.
    pub fn on_finish(&mut self) -> (r: bool)
        requires
            old(self).wf(),
        ensures
            final(self).wf(),
            r == (old(self).in_flight > 0),
            r ==> *final(self) == (Session { in_flight: (old(self).in_flight - 1) as u32, ..*old(self) }),
            !r ==> *final(self) == *old(self),
    {
        if self.in_flight == 0 {
            return false;
        }
        self.in_flight = self.in_flight - 1;
        true
    }

    /// Closes the session: no receive is allowed after this. Envelopes that
    /// are still unfinished stay the broker's to redeliver.
    pub fn close(&mut self)
        requires
            old(self).wf(),
        ensures
            final(self).wf(),
            final(self).phase == Phase::Closed,
            final(self).max_in_flight == old(self).max_in_flight,
            final(self).in_flight == old(self).in_flight,
    {
        self.phase = Phase::Closed;
    }
}

/// With an in-flight bound of one, a session that has handed out an
/// envelope hands out no second one until the first is finished, and may
/// again once it is.
pub proof fn lemma_one_in_flight(s: Session)
    requires
        s.wf(),
        s.max_in_flight == 1,
        s.spec_can_receive(),
    ensures
        !(Session { phase: Phase::Active, in_flight: (s.in_flight + 1) as u32, ..s }).spec_can_receive(),
        (Session { phase: Phase::Active, in_flight: s.in_flight, ..s }).spec_can_receive(),
{
}

/// A closed session never receives again, whatever is finished.
pub proof fn lemma_closed_is_final(s: Session)
    requires
        s.phase == Phase::Closed,
    ensures
        !s.spec_can_receive(),
        !(Session { in_flight: 0, ..s }).spec_can_receive(),
{
}

} // verus!
