use rustygolem::golem::{Golem, GolemConfig, Phase};
use rustygolem::handshake::{
    is_sasl_error, is_waiting, make_plain_payload, may_dispatch, send_credentials, wait_for_message, Event,
    Handshake, HandshakeState, Transition, DEFAULT_TIMEOUT_SECS,
};
use rustygolem::error::Error;
use rustygolem::message::{ChatMessage, Command};

fn server(command: Command, body: &str) -> ChatMessage {
    ChatMessage { command, source: None, target: None, body: body.to_string() }
}

fn own(command: Command, body: &str) -> ChatMessage {
    ChatMessage { command, source: None, target: None, body: body.to_string() }
}

fn with_password() -> Handshake {
    Handshake::new("golem".to_string(), Some("secret".to_string()))
}

#[test]
fn no_credential_identifies_at_once() {
    let hs = Handshake::new("golem".to_string(), None);
    let step = hs.authenticate_and_identify();
    assert_eq!(step.next, HandshakeState::HandshakeDone);
    assert_eq!(step.sends, vec![own(Command::Identify, "golem")]);
    assert_eq!(hs.sasl_auth(HandshakeState::Start, &Event::Proceed), step);
}

#[test]
fn credential_requests_capability_first() {
    let step = with_password().authenticate_and_identify();
    assert_eq!(step.next, HandshakeState::CapRequested);
    assert_eq!(step.sends, vec![own(Command::CapabilityRequest, "sasl")]);
}

#[test]
fn full_successful_handshake() {
    let hs = with_password();
    let events = vec![
        Event::Proceed,
        Event::Inbound(server(Command::Other, "noise")),
        Event::Inbound(server(Command::CapabilityAck, "sasl")),
        Event::Proceed,
        Event::Inbound(server(Command::Authenticate, "+")),
        Event::Proceed,
        Event::Inbound(server(Command::Reply(900), "logged in")),
        Event::Inbound(server(Command::Reply(903), "ok")),
    ];
    let outcome = hs.replay(HandshakeState::Start, &events);
    assert_eq!(outcome.next, HandshakeState::HandshakeDone);
    assert_eq!(
        outcome.sends,
        vec![
            own(Command::CapabilityRequest, "sasl"),
            own(Command::Authenticate, "PLAIN"),
            own(Command::Authenticate, "AGdvbGVtAHNlY3JldA=="),
            own(Command::CapabilityEnd, ""),
            own(Command::Identify, "golem"),
        ]
    );
}

#[test]
fn states_are_visited_in_order() {
    let hs = with_password();
    let mut state = HandshakeState::Start;
    let script = vec![
        (Event::Proceed, HandshakeState::CapRequested),
        (Event::Inbound(server(Command::CapabilityAck, "sasl")), HandshakeState::CapAcked),
        (Event::Proceed, HandshakeState::AuthenticateRequested),
        (Event::Inbound(server(Command::Authenticate, "+")), HandshakeState::AuthenticatePlusReceived),
        (Event::Proceed, HandshakeState::Credentialed),
        (Event::Inbound(server(Command::Reply(903), "")), HandshakeState::HandshakeDone),
    ];
    for (event, expected) in script {
        state = hs.sasl_auth(state, &event).next;
        assert_eq!(state, expected);
    }
}

#[test]
fn credentials_are_base64_of_plain_layout() {
    let hs = Handshake::new("gôlem".to_string(), Some("s3cr3t!".to_string()));
    let step = hs.sasl_auth(HandshakeState::AuthenticatePlusReceived, &Event::Proceed);
    assert_eq!(step.next, HandshakeState::Credentialed);
    assert_eq!(step.sends, vec![own(Command::Authenticate, "AGfDtGxlbQBzM2NyM3Qh")]);
    assert_eq!(make_plain_payload(&"golem".to_string(), &"secret".to_string()), "\0golem\0secret");
    assert_eq!(
        send_credentials("abc".to_string()),
        Transition { next: HandshakeState::Credentialed, sends: vec![own(Command::Authenticate, "abc")] }
    );
}

#[test]
fn handshake_timeout_without_ack_fails() {
    let hs = with_password();
    let events = vec![
        Event::Proceed,
        Event::Inbound(server(Command::Other, "motd")),
        Event::Inbound(server(Command::CapabilityAck, "multi-prefix")),
        Event::Timeout,
        Event::Inbound(server(Command::CapabilityAck, "sasl")),
        Event::Proceed,
        Event::Inbound(server(Command::Reply(903), "")),
    ];
    let outcome = hs.replay(HandshakeState::Start, &events);
    assert_eq!(outcome.next, HandshakeState::Failed);
    assert_eq!(outcome.sends, vec![own(Command::CapabilityRequest, "sasl")]);
    assert!(!may_dispatch(outcome.next));
}

#[test]
fn every_wait_times_out_to_failed() {
    let hs = with_password();
    for state in [
        HandshakeState::CapRequested,
        HandshakeState::AuthenticateRequested,
        HandshakeState::Credentialed,
    ] {
        assert!(is_waiting(state));
        assert_eq!(hs.wait_limit(state), Some(10));
        let step = hs.sasl_auth(state, &Event::Timeout);
        assert_eq!(step.next, HandshakeState::Failed);
        assert!(step.sends.is_empty());
    }
    for state in [
        HandshakeState::Start,
        HandshakeState::CapAcked,
        HandshakeState::AuthenticatePlusReceived,
        HandshakeState::HandshakeDone,
        HandshakeState::Failed,
    ] {
        assert!(!is_waiting(state));
        assert_eq!(hs.wait_limit(state), None);
        assert_eq!(hs.sasl_auth(state, &Event::Timeout).next, state);
    }
    assert_eq!(DEFAULT_TIMEOUT_SECS, 10);
}

#[test]
fn error_range_reply_fails() {
    let hs = with_password();
    for code in [904u16, 905, 908, 999] {
        let step = hs.sasl_auth(HandshakeState::Credentialed, &Event::Inbound(server(Command::Reply(code), "")));
        assert_eq!(step.next, HandshakeState::Failed);
        assert!(step.sends.is_empty());
    }
    for code in [1u16, 900, 901, 902] {
        let step = hs.sasl_auth(HandshakeState::Credentialed, &Event::Inbound(server(Command::Reply(code), "")));
        assert_eq!(step.next, HandshakeState::Credentialed);
    }
}

#[test]
fn sasl_error_range() {
    assert!(!is_sasl_error(0));
    assert!(!is_sasl_error(433));
    assert!(!is_sasl_error(900));
    assert!(!is_sasl_error(903));
    assert!(is_sasl_error(904));
    assert!(is_sasl_error(u16::MAX));
}

#[test]
fn awaited_messages() {
    assert!(wait_for_message(HandshakeState::CapRequested, &server(Command::CapabilityAck, "sasl")));
    assert!(!wait_for_message(HandshakeState::CapRequested, &server(Command::CapabilityAck, "sasl ")));
    assert!(!wait_for_message(HandshakeState::CapRequested, &server(Command::CapabilityRequest, "sasl")));
    assert!(wait_for_message(HandshakeState::AuthenticateRequested, &server(Command::Authenticate, "+")));
    assert!(!wait_for_message(HandshakeState::AuthenticateRequested, &server(Command::Authenticate, "PLAIN")));
    assert!(wait_for_message(HandshakeState::Credentialed, &server(Command::Reply(903), "")));
    assert!(wait_for_message(HandshakeState::Credentialed, &server(Command::Reply(904), "")));
    assert!(!wait_for_message(HandshakeState::Credentialed, &server(Command::Reply(902), "")));
    assert!(!wait_for_message(HandshakeState::Start, &server(Command::CapabilityAck, "sasl")));
    assert!(!wait_for_message(HandshakeState::HandshakeDone, &server(Command::Reply(903), "")));
}

#[test]
fn final_states_do_not_move() {
    let hs = with_password();
    let events = vec![
        Event::Proceed,
        Event::Inbound(server(Command::CapabilityAck, "sasl")),
        Event::Timeout,
        Event::Inbound(server(Command::Reply(903), "")),
    ];
    for state in [HandshakeState::Failed, HandshakeState::HandshakeDone] {
        let outcome = hs.replay(state, &events);
        assert_eq!(outcome.next, state);
        assert!(outcome.sends.is_empty());
    }
}

#[test]
fn prompt_without_secret_fails() {
    let hs = Handshake::new("golem".to_string(), None);
    let step = hs.sasl_auth(HandshakeState::AuthenticatePlusReceived, &Event::Proceed);
    assert_eq!(step.next, HandshakeState::Failed);
    assert!(step.sends.is_empty());
}

#[test]
fn runtime_does_not_dispatch_after_failed_handshake() {
    let config = GolemConfig {
        blacklisted_users: vec![],
        plugins: vec![],
        sasl_password: Some("secret".to_string()),
        server_bind_address: "127.0.0.1".to_string(),
        server_bind_port: 7777,
    };
    let golem = Golem::new_from_config("golem".to_string(), config, vec![]);
    assert_eq!(
        golem.run(HandshakeState::Failed),
        Err(Error::Wrapped {
            source: "Handshake failed".to_string(),
            ctx: "Problem while authenticating".to_string()
        })
    );
    assert_eq!(golem.run(HandshakeState::HandshakeDone), Ok(Phase::Dispatching));
    assert_eq!(golem.run(HandshakeState::CapRequested), Ok(Phase::Authenticating));
    assert_eq!(golem.run(HandshakeState::Start), Ok(Phase::Authenticating));
}
