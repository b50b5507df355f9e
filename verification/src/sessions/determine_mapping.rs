//! The session that finds out how a NAT maps the addresses of a client.

use vstd::prelude::*;
use crate::sessions::{Instant, StunEvent, StunSessionState, StunSessionStatus};

verus! {

/// How long the session waits for an answer to its first packet: three
/// seconds, in nanoseconds.
pub const TIMEOUT_NANOS: u64 = 3_000_000_000;

/// How long a session that was not started yet asks its driver to wait: ten
/// seconds, in nanoseconds.
pub const INITIAL_WAIT_NANOS: u64 = 10_000_000_000;

/// How a NAT maps the addresses of a client.
#[derive(Debug, Clone, Copy, PartialEq, Eq)]
pub enum AddressPortMapping {
    /// The mapping does not depend on where a packet goes.
    EndpointIndependent,
}

/// Why the mapping could not be determined.
#[derive(Debug, Clone, Copy, PartialEq, Eq)]
pub enum DetermineMappingError {
    /// No answer arrived in time.
    UnexpectedTimeout,
}

/// What the session asks its driver to send.
#[derive(Debug, Clone, Copy, PartialEq, Eq)]
pub enum OutgoingDatagrams {
    /// No datagram at all.
    Nothing,
    /// The first binding request.
    FirstAttempt,
}

/// The states of the session.
#[derive(Debug, Clone, Copy, PartialEq, Eq)]
pub enum DetermineMappingSession {
    /// Nothing was sent yet.
    Initial,
    /// The first packet was sent, and an answer is awaited until
    /// `timeout_at`.
    FirstPacketSent { timeout_at: Instant },
    /// The session is over.
    Complete { result: Result<AddressPortMapping, DetermineMappingError> },
}

impl Default for DetermineMappingSession {
    fn default() -> (session: Self)
        ensures
            session == DetermineMappingSession::Initial,
    {
        Self::Initial
    }
}

impl DetermineMappingSession {
    /// The step that changes nothing and sends nothing.
    pub fn no_change(self) -> (step: (Self, OutgoingDatagrams))
        ensures
            step == (self, OutgoingDatagrams::Nothing),
    {
        (self, OutgoingDatagrams::Nothing)
    }
}

/// The state that a session is in after it took the given events one after
/// the other.
pub open spec fn after_events(
    state: DetermineMappingSession,
    events: Seq<StunEvent>,
) -> DetermineMappingSession
    decreases events.len(),
{
    if events.len() == 0 {
        state
    } else {
        after_events(state, events.drop_last()).next(events.last()).0
    }
}

/// A session that has not sent anything sends its first packet when it is
/// woken at `now`, and then awaits an answer until three seconds after `now`.
pub proof fn lemma_initial_idle(now: Instant)
    requires
        now.nanos + TIMEOUT_NANOS <= u64::MAX,
    ensures
        DetermineMappingSession::Initial.accepts(StunEvent::Idle { now }),
        DetermineMappingSession::Initial.next(StunEvent::Idle { now }) == (
            DetermineMappingSession::FirstPacketSent {
                timeout_at: Instant { nanos: (now.nanos + 3_000_000_000) as u64 },
            },
            OutgoingDatagrams::FirstAttempt,
        ),
{
}

/// A session that awaits an answer and is woken at its deadline or later ends
/// with `UnexpectedTimeout`, and sends nothing.
pub proof fn lemma_timeout(timeout_at: Instant, now: Instant)
    requires
        now.nanos >= timeout_at.nanos,
    ensures
        (DetermineMappingSession::FirstPacketSent { timeout_at }).next(StunEvent::Idle { now }) == (
            DetermineMappingSession::Complete {
                result: Err::<AddressPortMapping, DetermineMappingError>(
                    DetermineMappingError::UnexpectedTimeout,
                ),
            },
            OutgoingDatagrams::Nothing,
        ),
{
}

/// A session that awaits an answer and gets a datagram, whatever is in it and
/// wherever it comes from, ends with `EndpointIndependent`, and sends nothing.
pub proof fn lemma_answer(timeout_at: Instant, event: StunEvent)
    requires
        event is DatagramReceived,
    ensures
        (DetermineMappingSession::FirstPacketSent { timeout_at }).next(event) == (
            DetermineMappingSession::Complete {
                result: Ok::<AddressPortMapping, DetermineMappingError>(
                    AddressPortMapping::EndpointIndependent,
                ),
            },
            OutgoingDatagrams::Nothing,
        ),
{
}

/// A session that is over stays as it is, whatever events it takes, and every
/// one of them is accepted and sends nothing.
pub proof fn lemma_complete_is_absorbing(state: DetermineMappingSession, events: Seq<StunEvent>)
    requires
        state is Complete,
    ensures
        after_events(state, events) == state,
        forall|event: StunEvent| #[trigger] state.accepts(event) && state.next(event) == (
            state,
            OutgoingDatagrams::Nothing,
        ),
    decreases events.len(),
{
    if events.len() > 0 {
        lemma_complete_is_absorbing(state, events.drop_last());
    }
}

impl StunSessionState for DetermineMappingSession {
    type Outgoing = OutgoingDatagrams;

    type Output = Result<AddressPortMapping, DetermineMappingError>;

    /// Only the start needs room on the clock: for the deadline three seconds
    /// after it.
    open spec fn accepts(self, event: StunEvent) -> bool {
        self is Initial ==> (event matches StunEvent::Idle { now } ==> now.nanos + TIMEOUT_NANOS
            <= u64::MAX)
    }

    /// The transitions:
    ///
    /// | state           | event              | next                           | to send      |
    /// |-----------------|--------------------|--------------------------------|--------------|
    /// | Initial         | Idle at `now`      | FirstPacketSent, `now + 3 s`   | FirstAttempt |
    /// | Initial         | DatagramReceived   | Initial                        | Nothing      |
    /// | FirstPacketSent | Idle at `now >= t` | Complete, timed out            | Nothing      |
    /// | FirstPacketSent | Idle at `now < t`  | FirstPacketSent, same `t`      | Nothing      |
    /// | FirstPacketSent | DatagramReceived   | Complete, endpoint independent | Nothing      |
    /// | Complete        | any                | Complete, same result          | Nothing      |
    open spec fn next(self, event: StunEvent) -> (Self, OutgoingDatagrams) {
        match (self, event) {
            (DetermineMappingSession::Initial, StunEvent::Idle { now }) => (
                DetermineMappingSession::FirstPacketSent {
                    timeout_at: Instant { nanos: (now.nanos + TIMEOUT_NANOS) as u64 },
                },
                OutgoingDatagrams::FirstAttempt,
            ),
            (DetermineMappingSession::Initial, StunEvent::DatagramReceived { .. }) => (
                self,
                OutgoingDatagrams::Nothing,
            ),
            (
                DetermineMappingSession::FirstPacketSent { timeout_at },
                StunEvent::Idle { now },
            ) => if now.nanos >= timeout_at.nanos {
                (
                    DetermineMappingSession::Complete {
                        result: Err(DetermineMappingError::UnexpectedTimeout),
                    },
                    OutgoingDatagrams::Nothing,
                )
            } else {
                (self, OutgoingDatagrams::Nothing)
            },
            (
                DetermineMappingSession::FirstPacketSent { .. },
                StunEvent::DatagramReceived { .. },
            ) => (
                DetermineMappingSession::Complete {
                    result: Ok(AddressPortMapping::EndpointIndependent),
                },
                OutgoingDatagrams::Nothing,
            ),
            (DetermineMappingSession::Complete { .. }, _) => (self, OutgoingDatagrams::Nothing),
        }
    }

    /// Only a session that was not started needs room on the clock: for the
    /// ten seconds that it asks its driver to wait.
    open spec fn reports_at(self, now: Instant) -> bool {
        self is Initial ==> now.nanos + INITIAL_WAIT_NANOS <= u64::MAX
    }

    /// A session that was not started asks to wait for ten seconds from `now`
    /// on, one that sent its first packet until its deadline, and one that is
    /// over gives its result.
    open spec fn status_at(self, now: Instant) -> StunSessionStatus<
        Result<AddressPortMapping, DetermineMappingError>,
    > {
        match self {
            DetermineMappingSession::Initial => StunSessionStatus::Waiting {
                timeout: Instant { nanos: (now.nanos + INITIAL_WAIT_NANOS) as u64 },
            },
            DetermineMappingSession::FirstPacketSent { timeout_at } => StunSessionStatus::Waiting {
                timeout: timeout_at,
            },
            DetermineMappingSession::Complete { result } => StunSessionStatus::Complete { result },
        }
    }

    fn process(self, event: &StunEvent) -> (step: (Self, OutgoingDatagrams)) {
        match self {
            DetermineMappingSession::Initial => match event {
                StunEvent::Idle { now } => (
                    DetermineMappingSession::FirstPacketSent {
                        timeout_at: Instant { nanos: now.nanos + TIMEOUT_NANOS },
                    },
                    OutgoingDatagrams::FirstAttempt,
                ),
                StunEvent::DatagramReceived { .. } => self.no_change(),
            },
            DetermineMappingSession::FirstPacketSent { timeout_at } => match event {
                StunEvent::Idle { now } => {
                    if now.nanos >= timeout_at.nanos {
                        (
                            DetermineMappingSession::Complete {
                                result: Err(DetermineMappingError::UnexpectedTimeout),
                            },
                            OutgoingDatagrams::Nothing,
                        )
                    } else {
                        self.no_change()
                    }
                },
                StunEvent::DatagramReceived { .. } => (
                    DetermineMappingSession::Complete {
                        result: Ok(AddressPortMapping::EndpointIndependent),
                    },
                    OutgoingDatagrams::Nothing,
                ),
            },
            DetermineMappingSession::Complete { .. } => self.no_change(),
        }
    }

    fn status(&self, now: Instant) -> (status: StunSessionStatus<
        Result<AddressPortMapping, DetermineMappingError>,
    >) {
        match self {
            DetermineMappingSession::Initial => StunSessionStatus::Waiting {
                timeout: Instant { nanos: now.nanos + INITIAL_WAIT_NANOS },
            },
            DetermineMappingSession::FirstPacketSent { timeout_at } => StunSessionStatus::Waiting {
                timeout: *timeout_at,
            },
            DetermineMappingSession::Complete { result } => StunSessionStatus::Complete {
                result: *result,
            },
        }
    }
}

} // verus!
