use furink_proto::registration::{
    next_action, outcome, run, step, RegistrationAction, RegistrationEvent, RegistrationState,
};
use furink_proto::ProtocolError;

/// A test double for the registry: it answers each action the machine asks
/// for and records which operations were ever invoked.
struct FakeRegistry {
    accept_version: bool,
    grant: String,
    validate_calls: u32,
    register_calls: u32,
}

impl FakeRegistry {
    fn new(accept_version: bool, grant: &str) -> Self {
        FakeRegistry {
            accept_version,
            grant: grant.to_string(),
            validate_calls: 0,
            register_calls: 0,
        }
    }

    fn connect(&mut self) -> RegistrationEvent {
        RegistrationEvent::Connected
    }

    fn validate(&mut self) -> RegistrationEvent {
        self.validate_calls += 1;
        if self.accept_version {
            RegistrationEvent::ValidateAccepted
        } else {
            RegistrationEvent::ValidateRejected
        }
    }

    fn register(&mut self) -> RegistrationEvent {
        self.register_calls += 1;
        RegistrationEvent::RegisterAccepted {
            id: self.grant.clone(),
        }
    }
}

/// Drive the machine against the double exactly as a real driver would:
/// perform the action the current state calls for, feed the outcome back.
fn drive(registry: &mut FakeRegistry) -> (RegistrationState, Vec<RegistrationAction>) {
    let mut state = RegistrationState::Connecting;
    let mut actions = Vec::new();
    loop {
        let action = next_action(&state);
        actions.push(action);
        let event = match action {
            RegistrationAction::Connect => registry.connect(),
            RegistrationAction::SendValidate => registry.validate(),
            RegistrationAction::SendRegister => registry.register(),
            RegistrationAction::Stop => break,
        };
        state = step(state, &event);
    }
    (state, actions)
}

#[test]
fn successful_run_returns_granted_id() {
    let events = vec![
        RegistrationEvent::Connected,
        RegistrationEvent::ValidateAccepted,
        RegistrationEvent::RegisterAccepted {
            id: "svc-42".to_string(),
        },
    ];
    let end = run(&events);
    assert_eq!(outcome(&end), Some(Ok("svc-42".to_string())));
    assert_eq!(next_action(&end), RegistrationAction::Stop);
}

#[test]
fn rejected_negotiation_never_registers() {
    let mut registry = FakeRegistry::new(false, "svc-42");
    let (end, actions) = drive(&mut registry);
    assert_eq!(registry.validate_calls, 1);
    assert_eq!(registry.register_calls, 0);
    assert!(!actions.contains(&RegistrationAction::SendRegister));
    assert_eq!(outcome(&end), Some(Err(ProtocolError::VersionMismatch)));
}

#[test]
fn accepted_negotiation_registers_once() {
    let mut registry = FakeRegistry::new(true, "svc-42");
    let (end, actions) = drive(&mut registry);
    assert_eq!(registry.validate_calls, 1);
    assert_eq!(registry.register_calls, 1);
    let sends = actions
        .iter()
        .filter(|a| **a == RegistrationAction::SendRegister)
        .count();
    assert_eq!(sends, 1);
    assert_eq!(
        actions,
        vec![
            RegistrationAction::Connect,
            RegistrationAction::SendValidate,
            RegistrationAction::SendRegister,
            RegistrationAction::Stop,
        ]
    );
    assert_eq!(outcome(&end), Some(Ok("svc-42".to_string())));
}

#[test]
fn rejection_after_connect_stops_everything() {
    let events = vec![
        RegistrationEvent::Connected,
        RegistrationEvent::ValidateRejected,
    ];
    let end = run(&events);
    assert_eq!(outcome(&end), Some(Err(ProtocolError::VersionMismatch)));
    assert_eq!(next_action(&end), RegistrationAction::Stop);
}

#[test]
fn connect_failure_is_a_connect_error() {
    let events = vec![RegistrationEvent::ChannelFailed];
    let end = run(&events);
    assert_eq!(outcome(&end), Some(Err(ProtocolError::Connect)));
}

#[test]
fn channel_failure_mid_sequence_is_a_connect_error() {
    let events = vec![
        RegistrationEvent::Connected,
        RegistrationEvent::ValidateAccepted,
        RegistrationEvent::ChannelFailed,
    ];
    let end = run(&events);
    assert_eq!(outcome(&end), Some(Err(ProtocolError::Connect)));
}

#[test]
fn registry_rejection_is_a_registration_error() {
    let events = vec![
        RegistrationEvent::Connected,
        RegistrationEvent::ValidateAccepted,
        RegistrationEvent::RegisterFailed,
    ];
    let end = run(&events);
    assert_eq!(outcome(&end), Some(Err(ProtocolError::Registration)));
}

#[test]
fn attempt_in_flight_has_no_outcome() {
    let events = vec![RegistrationEvent::Connected];
    let end = run(&events);
    assert_eq!(outcome(&end), None);
    assert_eq!(next_action(&end), RegistrationAction::SendValidate);
}

#[test]
fn fresh_attempt_connects_first() {
    let events: Vec<RegistrationEvent> = Vec::new();
    let end = run(&events);
    assert_eq!(outcome(&end), None);
    assert_eq!(next_action(&end), RegistrationAction::Connect);
}

#[test]
fn success_is_terminal() {
    let events = vec![
        RegistrationEvent::Connected,
        RegistrationEvent::ValidateAccepted,
        RegistrationEvent::RegisterAccepted {
            id: "svc-42".to_string(),
        },
        RegistrationEvent::ValidateRejected,
        RegistrationEvent::ChannelFailed,
    ];
    let end = run(&events);
    assert_eq!(outcome(&end), Some(Ok("svc-42".to_string())));
}

#[test]
fn failure_is_terminal() {
    let events = vec![
        RegistrationEvent::ValidateRejected,
        RegistrationEvent::Connected,
        RegistrationEvent::ValidateAccepted,
        RegistrationEvent::RegisterAccepted {
            id: "svc-42".to_string(),
        },
    ];
    let end = run(&events);
    assert_eq!(outcome(&end), Some(Err(ProtocolError::VersionMismatch)));
}
