//! Registration: the strictly ordered connect / negotiate / register
//! sequence, modelled as a state machine.
//!
//! The machine holds the protocol decisions; a driver owns the channel,
//! performs the action the current state calls for, and feeds the outcome
//! back in as an event. Negotiation must pass before registration is ever
//! attempted, so an incompatible client never pollutes the registry's
//! membership table with an identity it cannot maintain.

use vstd::prelude::*;
use crate::ProtocolError;

verus! {

/// The state of one registration attempt.
#[derive(Debug)]
pub enum RegistrationState {
    /// Establishing the connection to the registry endpoint.
    Connecting,
    /// Connected; validating the local protocol version with the peer.
    Negotiating,
    /// Version accepted; submitting the registration payload.
    Registering,
    /// Terminal success: the registry assigned this identity.
    Registered { id: String },
    /// Terminal failure; no further network operation is performed.
    Failed { error: ProtocolError },
}

/// The outcome of the network operation the driver last performed.
#[derive(Debug)]
pub enum RegistrationEvent {
    /// The connection to the endpoint was established.
    Connected,
    /// A transport-level failure: connecting failed, or the channel broke
    /// under a later call.
    ChannelFailed,
    /// The peer accepted the local protocol version.
    ValidateAccepted,
    /// The peer rejected the local protocol version: a terminal,
    /// unrecoverable condition for the current process lifetime.
    ValidateRejected,
    /// The registry accepted the registration payload and assigned an
    /// identity.
    RegisterAccepted { id: String },
    /// The registry rejected the registration payload.
    RegisterFailed,
}

/// What the driver must do next in a given state.
#[derive(Clone, Copy, Debug, PartialEq, Eq, Structural)]
pub enum RegistrationAction {
    /// Establish the connection to the registry endpoint.
    Connect,
    /// Send the local protocol version to the peer's validation operation.
    SendValidate,
    /// Submit the registration payload to the registry.
    SendRegister,
    /// The attempt is over; report the outcome and perform no further call.
    Stop,
}

/// The transition table. Terminal states absorb every event; a version
/// rejection or a transport failure is terminal from any active state; an
/// event that the current state did not ask for changes nothing, since the
/// driver is strictly sequential and never has more than one call in
/// flight.
pub open spec fn spec_step(s: RegistrationState, e: RegistrationEvent) -> RegistrationState {
    match s {
        RegistrationState::Connecting => match e {
            RegistrationEvent::Connected => RegistrationState::Negotiating,
            RegistrationEvent::ChannelFailed => RegistrationState::Failed {
                error: ProtocolError::Connect,
            },
            RegistrationEvent::ValidateRejected => RegistrationState::Failed {
                error: ProtocolError::VersionMismatch,
            },
            _ => RegistrationState::Connecting,
        },
        RegistrationState::Negotiating => match e {
            RegistrationEvent::ValidateAccepted => RegistrationState::Registering,
            RegistrationEvent::ValidateRejected => RegistrationState::Failed {
                error: ProtocolError::VersionMismatch,
            },
            RegistrationEvent::ChannelFailed => RegistrationState::Failed {
                error: ProtocolError::Connect,
            },
            _ => RegistrationState::Negotiating,
        },
        RegistrationState::Registering => match e {
            RegistrationEvent::RegisterAccepted { id } => RegistrationState::Registered { id },
            RegistrationEvent::RegisterFailed => RegistrationState::Failed {
                error: ProtocolError::Registration,
            },
            RegistrationEvent::ValidateRejected => RegistrationState::Failed {
                error: ProtocolError::VersionMismatch,
            },
            RegistrationEvent::ChannelFailed => RegistrationState::Failed {
                error: ProtocolError::Connect,
            },
            _ => RegistrationState::Registering,
        },
        RegistrationState::Registered { id } => RegistrationState::Registered { id },
        RegistrationState::Failed { error } => RegistrationState::Failed { error },
    }
}

/// Fold the transition table over a whole sequence of events.
pub open spec fn spec_run(s: RegistrationState, events: Seq<RegistrationEvent>) -> RegistrationState
    decreases events.len(),
{
    if events.len() == 0 {
        s
    } else {
        spec_run(spec_step(s, events[0]), events.skip(1))
    }
}

/// Apply one event to the machine, exactly as the transition table says.
pub fn step(s: RegistrationState, e: &RegistrationEvent) -> (next: RegistrationState)
    ensures
        next == spec_step(s, *e),
{
    match s {
        RegistrationState::Connecting => match e {
            RegistrationEvent::Connected => RegistrationState::Negotiating,
            RegistrationEvent::ChannelFailed => RegistrationState::Failed {
                error: ProtocolError::Connect,
            },
            RegistrationEvent::ValidateRejected => RegistrationState::Failed {
                error: ProtocolError::VersionMismatch,
            },
            _ => RegistrationState::Connecting,
        },
        RegistrationState::Negotiating => match e {
            RegistrationEvent::ValidateAccepted => RegistrationState::Registering,
            RegistrationEvent::ValidateRejected => RegistrationState::Failed {
                error: ProtocolError::VersionMismatch,
            },
            RegistrationEvent::ChannelFailed => RegistrationState::Failed {
                error: ProtocolError::Connect,
            },
            _ => RegistrationState::Negotiating,
        },
        RegistrationState::Registering => match e {
            RegistrationEvent::RegisterAccepted { id } => RegistrationState::Registered {
                id: id.clone(),
            },
            RegistrationEvent::RegisterFailed => RegistrationState::Failed {
                error: ProtocolError::Registration,
            },
            RegistrationEvent::ValidateRejected => RegistrationState::Failed {
                error: ProtocolError::VersionMismatch,
            },
            RegistrationEvent::ChannelFailed => RegistrationState::Failed {
                error: ProtocolError::Connect,
            },
            _ => RegistrationState::Registering,
        },
        RegistrationState::Registered { id } => RegistrationState::Registered { id },
        RegistrationState::Failed { error } => RegistrationState::Failed { error },
    }
}

/// The action a driver must perform in the given state.
pub open spec fn spec_action(s: RegistrationState) -> RegistrationAction {
    match s {
        RegistrationState::Connecting => RegistrationAction::Connect,
        RegistrationState::Negotiating => RegistrationAction::SendValidate,
        RegistrationState::Registering => RegistrationAction::SendRegister,
        RegistrationState::Registered { .. } => RegistrationAction::Stop,
        RegistrationState::Failed { .. } => RegistrationAction::Stop,
    }
}

/// What the driver must do next in the given state.
pub fn next_action(s: &RegistrationState) -> (a: RegistrationAction)
    ensures
        a == spec_action(*s),
{
    match s {
        RegistrationState::Connecting => RegistrationAction::Connect,
        RegistrationState::Negotiating => RegistrationAction::SendValidate,
        RegistrationState::Registering => RegistrationAction::SendRegister,
        RegistrationState::Registered { .. } => RegistrationAction::Stop,
        RegistrationState::Failed { .. } => RegistrationAction::Stop,
    }
}

/// The result a caller sees: `None` while the attempt is still in flight,
/// the assigned identity on success, and the error class on failure.
pub fn outcome(s: &RegistrationState) -> (r: Option<Result<String, ProtocolError>>)
    ensures
        match *s {
            RegistrationState::Registered { id } => r == Some(Result::<String, ProtocolError>::Ok(
                id,
            )),
            RegistrationState::Failed { error } => r == Some(Result::<String, ProtocolError>::Err(
                error,
            )),
            _ => r is None,
        },
{
    match s {
        RegistrationState::Registered { id } => Some(Ok(id.clone())),
        RegistrationState::Failed { error } => Some(Err(*error)),
        _ => None,
    }
}

/// Replay a recorded sequence of events from the initial state.
pub fn run(events: &Vec<RegistrationEvent>) -> (r: RegistrationState)
    ensures
        r == spec_run(RegistrationState::Connecting, events@),
{
    let mut state = RegistrationState::Connecting;
    let mut i: usize = 0;
    proof {
        assert(events@.skip(0) =~= events@);
    }
    while i < events.len()
        invariant
            i <= events.len(),
            spec_run(RegistrationState::Connecting, events@) == spec_run(
                state,
                events@.skip(i as int),
            ),
        decreases events.len() - i,
    {
        proof {
            assert(events@.skip(i as int)[0] == events@[i as int]);
            assert(events@.skip(i as int).skip(1) =~= events@.skip(i as int + 1));
        }
        state = step(state, &events[i]);
        i = i + 1;
    }
    proof {
        assert(events@.skip(events@.len() as int) =~= Seq::<RegistrationEvent>::empty());
    }
    state
}

/// Running over two sequences in turn is running over their concatenation.
pub proof fn lemma_run_concat(
    s: RegistrationState,
    a: Seq<RegistrationEvent>,
    b: Seq<RegistrationEvent>,
)
    ensures
        spec_run(s, a + b) == spec_run(spec_run(s, a), b),
    decreases a.len(),
{
    if a.len() == 0 {
        assert(a + b =~= b);
    } else {
        assert((a + b)[0] == a[0]);
        assert((a + b).skip(1) =~= a.skip(1) + b);
        lemma_run_concat(spec_step(s, a[0]), a.skip(1), b);
    }
}

/// A failed attempt stays failed, with the same error, whatever arrives.
pub proof fn lemma_failed_is_terminal(error: ProtocolError, events: Seq<RegistrationEvent>)
    ensures
        spec_run(RegistrationState::Failed { error }, events) == (RegistrationState::Failed {
            error,
        }),
    decreases events.len(),
{
    if events.len() > 0 {
        lemma_failed_is_terminal(error, events.skip(1));
    }
}

/// A registered attempt stays registered, with the same identity, whatever
/// arrives.
pub proof fn lemma_registered_is_terminal(id: String, events: Seq<RegistrationEvent>)
    ensures
        spec_run(RegistrationState::Registered { id }, events) == (RegistrationState::Registered {
            id,
        }),
    decreases events.len(),
{
    if events.len() > 0 {
        lemma_registered_is_terminal(id, events.skip(1));
    }
}

/// Negotiation has not yet passed in this state: the machine has never seen
/// the peer accept the local version, so no registration was ever sent.
pub open spec fn negotiation_not_passed(s: RegistrationState) -> bool {
    match s {
        RegistrationState::Connecting => true,
        RegistrationState::Negotiating => true,
        RegistrationState::Failed { .. } => true,
        _ => false,
    }
}

/// While the peer never accepts the local version, the machine never
/// reaches the registering phase, let alone an identity.
pub proof fn lemma_no_acceptance_no_registration(
    s: RegistrationState,
    events: Seq<RegistrationEvent>,
)
    requires
        negotiation_not_passed(s),
        forall|j: int|
            0 <= j < events.len() ==> !(#[trigger] events[j] matches RegistrationEvent::ValidateAccepted),
    ensures
        negotiation_not_passed(spec_run(s, events)),
    decreases events.len(),
{
    if events.len() > 0 {
        assert(!(events[0] matches RegistrationEvent::ValidateAccepted));
        assert(forall|j: int|
            0 <= j < events.skip(1).len() ==> #[trigger] events.skip(1)[j] == events[j + 1]);
        lemma_no_acceptance_no_registration(spec_step(s, events[0]), events.skip(1));
    }
}

/// Law: registration never yields an identity when negotiation failed. If
/// the peer rejects the local version before it ever accepted it, the run
/// ends failed — never registered — so no identity is ever produced.
pub proof fn lemma_rejection_forecloses_identity(events: Seq<RegistrationEvent>, i: int)
    requires
        0 <= i < events.len(),
        events[i] matches RegistrationEvent::ValidateRejected,
        forall|j: int| 0 <= j < i ==> !(#[trigger] events[j] matches RegistrationEvent::ValidateAccepted),
    ensures
        !(spec_run(RegistrationState::Connecting, events)
            matches RegistrationState::Registered { .. }),
{
    let before = events.subrange(0, i);
    let hit = seq![events[i]];
    let after = events.subrange(i + 1, events.len() as int);
    assert(events =~= (before + hit) + after);
    lemma_run_concat(RegistrationState::Connecting, before + hit, after);
    lemma_run_concat(RegistrationState::Connecting, before, hit);
    lemma_no_acceptance_no_registration(RegistrationState::Connecting, before);
    let reached = spec_run(RegistrationState::Connecting, before);
    assert(hit.skip(1) =~= Seq::<RegistrationEvent>::empty());
    assert(hit[0] == events[i]);
    assert(spec_run(reached, hit) == spec_run(spec_step(reached, hit[0]), hit.skip(1)));
    assert(spec_run(spec_step(reached, hit[0]), Seq::<RegistrationEvent>::empty()) == spec_step(
        reached,
        hit[0],
    ));
    assert(spec_run(reached, hit) == spec_step(reached, events[i]));
    match spec_step(reached, events[i]) {
        RegistrationState::Failed { error } => {
            lemma_failed_is_terminal(error, after);
        },
        _ => {
            assert(false);
        },
    }
}

/// The phase of one attempt, in the order the protocol prescribes:
/// connect, then negotiate, then register, then done.
pub open spec fn spec_phase(s: RegistrationState) -> int {
    match s {
        RegistrationState::Connecting => 0,
        RegistrationState::Negotiating => 1,
        RegistrationState::Registering => 2,
        RegistrationState::Registered { .. } => 3,
        RegistrationState::Failed { .. } => 3,
    }
}

/// Law: the three network operations happen in strict order. No event
/// ever moves the machine back to an earlier phase, so a step's failure
/// short-circuits everything that would have followed it.
pub proof fn lemma_phases_never_regress(s: RegistrationState, e: RegistrationEvent)
    ensures
        spec_phase(spec_step(s, e)) >= spec_phase(s),
{
}

/// Law: an identity implies a passed negotiation. Whenever a run from the
/// initial state ends registered, the peer accepted the local version at
/// some point along the way.
pub proof fn lemma_identity_implies_negotiation(events: Seq<RegistrationEvent>)
    ensures
        (spec_run(RegistrationState::Connecting, events)
            matches RegistrationState::Registered { .. }) ==> exists|j: int|
            0 <= j < events.len() && (#[trigger] events[j] matches RegistrationEvent::ValidateAccepted),
{
    if !(exists|j: int|
        0 <= j < events.len() && (#[trigger] events[j] matches RegistrationEvent::ValidateAccepted)) {
        assert(forall|j: int|
            0 <= j < events.len() ==> !(#[trigger] events[j] matches RegistrationEvent::ValidateAccepted));
        lemma_no_acceptance_no_registration(RegistrationState::Connecting, events);
    }
}

/// Law: the identity a run ends with is exactly one the registry granted —
/// some event of the run is a registry acceptance carrying that very
/// identity, unchanged.
pub proof fn lemma_identity_granted_by_registry(
    s: RegistrationState,
    events: Seq<RegistrationEvent>,
    id: String,
)
    requires
        !(s matches RegistrationState::Registered { .. }),
        spec_run(s, events) == (RegistrationState::Registered { id }),
    ensures
        exists|j: int|
            0 <= j < events.len() && #[trigger] events[j] == (RegistrationEvent::RegisterAccepted { id }),
    decreases events.len(),
{
    assert(events.len() > 0);
    let next = spec_step(s, events[0]);
    if next == (RegistrationState::Registered { id: id }) {
        assert(events[0] == (RegistrationEvent::RegisterAccepted { id: id }));
    } else {
        if next matches RegistrationState::Registered { .. } {
            match next {
                RegistrationState::Registered { id: other } => {
                    lemma_registered_is_terminal(other, events.skip(1));
                },
                _ => {
                    assert(false);
                },
            }
        }
        lemma_identity_granted_by_registry(next, events.skip(1), id);
        let j = choose|j: int|
            0 <= j < events.skip(1).len() && #[trigger] events.skip(1)[j] == (
            RegistrationEvent::RegisterAccepted { id });
        assert(events[j + 1] == (RegistrationEvent::RegisterAccepted { id }));
    }
}

} // verus!
