//! Sole ownership of the connection to the device.
//!
//! The supervisor never talks to the device itself. It is told how each
//! probe and each connection attempt went, and answers with what to do
//! next; a handle it gives up is handed back so that the caller can close
//! it.

use crate::backoff::BackoffState;
use vstd::prelude::*;

verus! {

/// Either no connection, or the one live handle.
pub enum ConnectionState<H> {
    Disconnected,
    Connected(H),
}

impl<H> ConnectionState<H> {
    /// The handle held, if any.
    pub open spec fn handle(self) -> Option<H> {
        match self {
            ConnectionState::Disconnected => None,
            ConnectionState::Connected(h) => Some(h),
        }
    }

    /// The state that holds `handle`, or none.
    pub open spec fn of(handle: Option<H>) -> ConnectionState<H> {
        match handle {
            None => ConnectionState::Disconnected,
            Some(h) => ConnectionState::Connected(h),
        }
    }
}

/// What a [`ConnectionSupervisor`] stands for: the connection, and whether
/// the handle it holds has been found dead and awaits replacement.
pub struct Supervision<H> {
    pub connection: ConnectionState<H>,
    pub stale: bool,
}

/// The first thing to do when a usable connection is wanted.
#[derive(Clone, Copy, Debug, PartialEq, Eq, Structural)]
pub enum ConnectStep {
    /// Ask the held handle whether it is still connected.
    Probe,
    /// Attempt a new connection.
    Connect,
}

/// How an attempt to secure a connection ended.
pub enum Ensured<H> {
    /// A usable handle is held. `replaced` is the dead handle it took the
    /// place of, if there was one.
    Connected { replaced: Option<H> },
    /// No connection could be made; try again after `delay` seconds.
    /// `discarded` is the dead handle that was let go, if there was one.
    RetryAfter { delay: u64, discarded: Option<H> },
}

impl<H> Supervision<H> {
    /// Only a held handle can be stale.
    pub open spec fn wf(self) -> bool {
        self.stale ==> self.connection is Connected
    }

    /// Nothing held.
    pub open spec fn idle() -> Supervision<H> {
        Supervision { connection: ConnectionState::Disconnected, stale: false }
    }

    /// Holding `handle`, believed alive.
    pub open spec fn holding(handle: H) -> Supervision<H> {
        Supervision { connection: ConnectionState::Connected(handle), stale: false }
    }

    /// A held handle that is not known to be dead is probed; otherwise a
    /// new connection is attempted.
    pub open spec fn next_step(self) -> ConnectStep {
        if self.connection is Connected && !self.stale {
            ConnectStep::Probe
        } else {
            ConnectStep::Connect
        }
    }

    /// Whether a probe that reported `alive` leaves a usable connection.
    pub open spec fn usable_after_probe(self, alive: bool) -> bool {
        alive && self.next_step() == ConnectStep::Probe
    }

    /// The state after a probe reported `alive`: a live handle is kept as it
    /// is, a dead one is kept but marked.
    pub open spec fn probed(self, alive: bool) -> Supervision<H> {
        if self.connection is Connected && !alive {
            Supervision { connection: self.connection, stale: true }
        } else {
            self
        }
    }

    /// The state after a connection attempt that produced `attempt`.
    pub open spec fn attempted(self, attempt: Option<H>) -> Supervision<H> {
        Supervision { connection: ConnectionState::of(attempt), stale: false }
    }
}

/// Owner of the single connection handle.
pub struct ConnectionSupervisor<H> {
    handle: Option<H>,
    stale: bool,
}

impl<H> View for ConnectionSupervisor<H> {
    type V = Supervision<H>;

    closed spec fn view(&self) -> Supervision<H> {
        Supervision { connection: ConnectionState::of(self.handle), stale: self.stale }
    }
}

impl<H> ConnectionSupervisor<H> {
    /// Starts without a connection.
    pub fn new() -> (supervisor: ConnectionSupervisor<H>)
        ensures
            supervisor@ == Supervision::<H>::idle(),
    {
        ConnectionSupervisor { handle: None, stale: false }
    }

    /// Whether a handle is held.
    pub fn is_connected(&self) -> (connected: bool)
        ensures
            connected == (self@.connection is Connected),
    {
        self.handle.is_some()
    }

    /// The handle held, for the caller to read from.
    pub fn handle(&self) -> (handle: Option<&H>)
        ensures
            handle.is_some() == (self@.connection is Connected),
            handle matches Some(h) ==> self@.connection == ConnectionState::Connected(*h),
    {
        self.handle.as_ref()
    }

    /// The first thing to do when a usable connection is wanted.
    pub fn next_step(&self) -> (step: ConnectStep)
        ensures
            step == self@.next_step(),
    {
        if self.handle.is_some() && !self.stale {
            ConnectStep::Probe
        } else {
            ConnectStep::Connect
        }
    }

    /// Takes the answer of a probe. A handle that reports itself connected
    /// is kept unchanged and counts as a success for the backoff; one that
    /// does not is kept until a connection attempt has been made.
    pub fn on_probe(&mut self, alive: bool, backoff: &mut BackoffState) -> (usable: bool)
        ensures
            usable == old(self)@.usable_after_probe(alive),
            final(self)@ == old(self)@.probed(alive),
            final(backoff)@ == if usable {
                old(backoff)@.succeeded()
            } else {
                old(backoff)@
            },
    {
        if self.handle.is_some() && !self.stale && alive {
            backoff.on_success();
            true
        } else {
            if self.handle.is_some() && !alive {
                self.stale = true;
            }
            false
        }
    }

    /// Takes the outcome of a connection attempt. A new handle is stored
    /// and the backoff starts over; without one the delay to wait is
    /// announced and the backoff grows. Either way a dead handle still held
    /// is given up.
    pub fn on_connect(&mut self, attempt: Option<H>, backoff: &mut BackoffState) -> (outcome:
        Ensured<H>)
        ensures
            final(self)@ == old(self)@.attempted(attempt),
            attempt is Some ==> outcome == (Ensured::Connected {
                replaced: old(self)@.connection.handle(),
            }) && final(backoff)@ == old(backoff)@.succeeded(),
            attempt is None ==> outcome == (Ensured::RetryAfter {
                delay: old(backoff)@.current_delay,
                discarded: old(self)@.connection.handle(),
            }) && final(backoff)@ == old(backoff)@.failed(),
    {
        let previous = self.handle.take();
        self.stale = false;
        match attempt {
            Some(handle) => {
                self.handle = Some(handle);
                backoff.on_success();
                Ensured::Connected { replaced: previous }
            },
            None => {
                let delay = backoff.on_failure();
                Ensured::RetryAfter { delay, discarded: previous }
            },
        }
    }

    /// Gives up the handle after a failed read, so that the next attempt
    /// starts with a new connection. The handle comes back to be closed.
    pub fn report_read_failure(&mut self) -> (released: Option<H>)
        ensures
            released == old(self)@.connection.handle(),
            final(self)@ == Supervision::<H>::idle(),
    {
        self.stale = false;
        self.handle.take()
    }

    /// Gives up the handle, if one is held. The handle comes back to be
    /// closed; a second call finds nothing left.
    pub fn shutdown(&mut self) -> (released: Option<H>)
        ensures
            released == old(self)@.connection.handle(),
            final(self)@ == Supervision::<H>::idle(),
    {
        self.stale = false;
        self.handle.take()
    }
}

/// Every operation of the supervisor leaves it well formed.
pub proof fn lemma_supervision_stays_wf<H>(supervision: Supervision<H>, alive: bool, attempt: Option<H>)
    requires
        supervision.wf(),
    ensures
        supervision.probed(alive).wf(),
        supervision.attempted(attempt).wf(),
        Supervision::<H>::idle().wf(),
{
}

/// A probe is only ever asked of a handle believed alive, and once a handle
/// has been found dead the next step is a new connection.
pub proof fn lemma_dead_handle_is_not_reused<H>(supervision: Supervision<H>)
    requires
        supervision.wf(),
    ensures
        supervision.probed(false).next_step() == ConnectStep::Connect,
        !supervision.probed(false).usable_after_probe(true),
{
}

} // verus!
