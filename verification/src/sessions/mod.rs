//! Sessions: state machines that run a STUN transaction of several steps
//! without doing any input or output themselves.
//!
//! A session is a value. The driver hands it an event, the session answers
//! with its next state and with what is to be sent, and tells the driver until
//! when to wait for the next event. The driver owns the socket and the clock:
//! every time that a session sees is an argument.

pub mod determine_mapping;

use vstd::prelude::*;
use crate::net::SocketAddr;

pub use determine_mapping::{
    AddressPortMapping, DetermineMappingError, DetermineMappingSession, OutgoingDatagrams,
};

verus! {

/// A reading of a monotonic clock: the nanoseconds that have passed since an
/// origin that the driver chooses.
#[derive(Debug, Clone, Copy, PartialEq, Eq, PartialOrd, Ord, Hash)]
pub struct Instant {
    pub nanos: u64,
}

/// What a driver tells a session.
#[derive(Debug, Clone, Copy)]
pub enum StunEvent<'a> {
    /// Nothing arrived: the session starts, or a deadline has passed.
    Idle { now: Instant },
    /// A datagram arrived from `src`.
    DatagramReceived { bytes: &'a [u8], src: SocketAddr },
}

/// What a session tells its driver to do next.
#[derive(Debug)]
pub enum StunSessionStatus<T> {
    /// Wait for a datagram, no longer than until `timeout`.
    Waiting { timeout: Instant },
    /// The session is over, with this result.
    Complete { result: T },
}

/// The states of a session, with the transition function between them.
pub trait StunSessionState: Sized + Copy {
    /// What the session asks the driver to send.
    type Outgoing;

    /// What the session ends with.
    type Output;

    /// Whether the state can take the event: every deadline that the
    /// transition sets can be represented.
    spec fn accepts(self, event: StunEvent) -> bool;

    /// The state after the event, and what is to be sent.
    spec fn next(self, event: StunEvent) -> (Self, Self::Outgoing);

    /// Whether the state can tell its status at the given time: the deadline
    /// that it names can be represented.
    spec fn reports_at(self, now: Instant) -> bool;

    /// What the driver is to do next, asked at the given time.
    spec fn status_at(self, now: Instant) -> StunSessionStatus<Self::Output>;

    /// Takes an event. Returns the state after it, and what is to be sent.
    fn process(self, event: &StunEvent) -> (step: (Self, Self::Outgoing))
        requires
            self.accepts(*event),
        ensures
            step == self.next(*event),
    ;

    /// Tells the driver what to do next. `now` is the time of asking.
    fn status(&self, now: Instant) -> (status: StunSessionStatus<Self::Output>)
        requires
            self.reports_at(now),
        ensures
            status == self.status_at(now),
    ;
}

/// A session in some state.
#[derive(Debug)]
pub struct StunSession<T> {
    state: T,
}

impl<T> View for StunSession<T> {
    type V = T;

    /// The state that the session is in.
    closed spec fn view(&self) -> T {
        self.state
    }
}

impl<T> StunSession<T> where T: StunSessionState {
    /// A session that starts in the given state.
    pub fn new(state: T) -> (session: Self)
        ensures
            session@ == state,
    {
        Self { state }
    }

    /// Hands an event to the session, which moves to its next state. Returns
    /// what is to be sent.
    pub fn process(&mut self, event: &StunEvent) -> (outgoing: T::Outgoing)
        requires
            old(self)@.accepts(*event),
        ensures
            (final(self)@, outgoing) == old(self)@.next(*event),
    {
        let (new_state, outgoing) = self.state.process(event);
        self.state = new_state;
        outgoing
    }

    /// Tells the driver what to do next. `now` is the time of asking.
    pub fn status(&self, now: Instant) -> (status: StunSessionStatus<T::Output>)
        requires
            self@.reports_at(now),
        ensures
            status == self@.status_at(now),
    {
        self.state.status(now)
    }
}

} // verus!
