//! Lifecycle of the service: starting, serving, draining, stopped.
//!
//! A termination signal moves the service from serving to draining.  While
//! draining, no new request is accepted, but every request already in
//! flight may run to completion; the service stops only once the last of
//! them has finished.  The signal handling itself is outside; this state
//! machine is what it drives, and what the listener consults before
//! accepting work.

use vstd::prelude::*;

verus! {

/// The phase the service is in.
#[derive(Clone, Copy, Debug, PartialEq, Eq, Structural)]
pub enum Phase {
    /// Configuration is loading; the listener is not yet bound.
    Starting,
    /// Normal operation: inbound batches are accepted.
    Serving,
    /// A termination signal arrived: no new work, in-flight work finishes.
    Draining,
    /// Drain complete: the process may exit.
    Stopped,
}

/// New work is accepted only while serving.
pub open spec fn accept_allowed(p: Phase) -> bool {
    p == Phase::Serving
}

/// The lifecycle state: the phase and the number of requests in flight.
pub struct Lifecycle {
    phase: Phase,
    in_flight: u64,
}

impl Lifecycle {
    /// The current phase.
    pub closed spec fn phase(self) -> Phase {
        self.phase
    }

    /// How many accepted requests have not yet finished.
    pub closed spec fn in_flight(self) -> u64 {
        self.in_flight
    }

    /// Stopping is allowed exactly when the drain has run dry.
    pub open spec fn stop_allowed(self) -> bool {
        self.phase() == Phase::Draining && self.in_flight() == 0
    }

    /// The current phase, for the driver's own bookkeeping.
    pub fn current_phase(&self) -> (p: Phase)
        ensures
            p == self.phase(),
    {
        self.phase
    }

    /// The current in-flight count, for the driver's own bookkeeping.
    pub fn current_in_flight(&self) -> (n: u64)
        ensures
            n == self.in_flight(),
    {
        self.in_flight
    }

    /// A fresh lifecycle: starting, nothing in flight.
    pub fn new() -> (l: Lifecycle)
        ensures
            l.phase() == Phase::Starting,
            l.in_flight() == 0,
    {
        Lifecycle { phase: Phase::Starting, in_flight: 0 }
    }

    /// Startup finished: the listener is bound and serving begins.
    pub fn begin_serving(&mut self)
        requires
            old(self).phase() == Phase::Starting,
        ensures
            final(self).phase() == Phase::Serving,
            final(self).in_flight() == old(self).in_flight(),
    {
        self.phase = Phase::Serving;
    }

    /// Asks to admit one inbound request.  Admission succeeds exactly in
    /// the serving phase — in particular never once a termination signal
    /// has been received — and counts the request as in flight.
    pub fn try_accept(&mut self) -> (accepted: bool)
        requires
            old(self).in_flight() < u64::MAX,
        ensures
            accepted == accept_allowed(old(self).phase()),
            final(self).phase() == old(self).phase(),
            accepted ==> final(self).in_flight() == old(self).in_flight() + 1,
            !accepted ==> final(self).in_flight() == old(self).in_flight(),
    {
        match self.phase {
            Phase::Serving => {
                self.in_flight = self.in_flight + 1;
                true
            }
            _ => false,
        }
    }

    /// A termination signal arrived.  Serving turns into draining; any
    /// other phase is unchanged, and so is the in-flight count: work
    /// already admitted keeps running.
    pub fn receive_signal(&mut self)
        ensures
            final(self).in_flight() == old(self).in_flight(),
            final(self).phase() == (if old(self).phase() == Phase::Serving {
                Phase::Draining
            } else {
                old(self).phase()
            }),
    {
        match self.phase {
            Phase::Serving => {
                self.phase = Phase::Draining;
            }
            _ => {}
        }
    }

    /// One in-flight request completed — in whatever phase, since a drain
    /// lets admitted work finish.
    pub fn finish_request(&mut self)
        requires
            old(self).in_flight() > 0,
        ensures
            final(self).phase() == old(self).phase(),
            final(self).in_flight() == old(self).in_flight() - 1,
    {
        self.in_flight = self.in_flight - 1;
    }

    /// Asks whether the process may exit.  It may exactly when draining
    /// and nothing is in flight any more.
    pub fn try_stop(&mut self) -> (stopped: bool)
        ensures
            stopped == old(self).stop_allowed(),
            stopped ==> final(self).phase() == Phase::Stopped && final(self).in_flight() == 0,
            !stopped ==> *final(self) == *old(self),
    {
        match self.phase {
            Phase::Draining => {
                if self.in_flight == 0 {
                    self.phase = Phase::Stopped;
                    true
                } else {
                    false
                }
            }
            _ => false,
        }
    }
}

/// Law: graceful drain.  After a termination signal the service is
/// draining: no new inbound request is admitted any more, every request
/// already in flight may still finish, and the process may exit exactly
/// when the last of them has — never earlier.
pub proof fn lemma_graceful_drain(l: Lifecycle)
    requires
        l.phase() == Phase::Draining,
    ensures
        !accept_allowed(l.phase()),
        l.stop_allowed() <==> l.in_flight() == 0,
{
}

} // verus!
