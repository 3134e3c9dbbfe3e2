use bb8_tiberius::ConnAction;
use bb8_tiberius::ConnEvent;
use bb8_tiberius::ConnState;
use bb8_tiberius::ConnectionManager;
use bb8_tiberius::Descriptor;
use bb8_tiberius::Error;
use bb8_tiberius::Handle;
use bb8_tiberius::connect::finish;
use bb8_tiberius::connect::step;

/// Drives one whole connection attempt, answering each action with the next
/// scripted handshake outcome, and reports what a real transport layer would
/// have been asked to do.
struct DriveLog {
    opens: Vec<(String, u16, bool)>,
    hooks: usize,
    handshakes: usize,
    result: Result<Handle, Error>,
}

fn drive(manager: &ConnectionManager, mut handshake_script: Vec<ConnEvent>) -> DriveLog {
    let mut opens: Vec<(String, u16, bool)> = Vec::new();
    let mut hooks: usize = 0;
    let mut handshakes: usize = 0;
    let (mut state, mut action) = manager.start_connect();
    loop {
        let event = match action {
            ConnAction::Open { desc, discover } => {
                opens.push((desc.host.clone(), desc.port, discover));
                ConnEvent::Opened
            }
            ConnAction::ApplyHook => {
                hooks += 1;
                ConnEvent::HookOk
            }
            ConnAction::Handshake { desc: _ } => {
                handshakes += 1;
                handshake_script.remove(0)
            }
            ConnAction::Stop => {
                return DriveLog { opens, hooks, handshakes, result: finish(state) };
            }
        };
        let (s, a) = step(state, event);
        state = s;
        action = a;
    }
}

fn manager_for(host: &str, port: u16) -> ConnectionManager {
    ConnectionManager::new(Descriptor::new(host.to_string(), port))
}

#[test]
fn first_try_success_opens_one_transport() {
    let m = manager_for("host", 1433);
    let log = drive(&m, vec![ConnEvent::HandshakeOk]);
    assert_eq!(log.opens, vec![("host".to_string(), 1433, false)]);
    assert_eq!(log.hooks, 1);
    assert_eq!(log.handshakes, 1);
    let h = log.result.unwrap();
    assert_eq!(h.host, "host");
    assert_eq!(h.port, 1433);
    assert!(h.is_live());
}

#[test]
fn one_redirect_opens_two_transports_and_succeeds() {
    let m = manager_for("host", 1433);
    let log = drive(
        &m,
        vec![
            ConnEvent::HandshakeRouting { host: "host2".to_string(), port: 1434 },
            ConnEvent::HandshakeOk,
        ],
    );
    assert_eq!(
        log.opens,
        vec![("host".to_string(), 1433, false), ("host2".to_string(), 1434, false)]
    );
    assert_eq!(log.hooks, 2);
    assert_eq!(log.handshakes, 2);
    let h = log.result.unwrap();
    assert_eq!(h.host, "host2");
    assert_eq!(h.port, 1434);
    assert!(h.is_live());
}

#[test]
fn second_routing_signal_is_a_protocol_error() {
    let m = manager_for("host", 1433);
    let log = drive(
        &m,
        vec![
            ConnEvent::HandshakeRouting { host: "host2".to_string(), port: 1434 },
            ConnEvent::HandshakeRouting { host: "host3".to_string(), port: 1435 },
        ],
    );
    assert_eq!(log.opens.len(), 2);
    assert_eq!(log.handshakes, 2);
    assert!(matches!(log.result, Err(Error::Protocol(_))));
}

#[test]
fn hook_runs_once_per_opened_transport() {
    let m = manager_for("host", 1433);
    let log = drive(
        &m,
        vec![
            ConnEvent::HandshakeRouting { host: "host2".to_string(), port: 1434 },
            ConnEvent::HandshakeOk,
        ],
    );
    assert_eq!(log.hooks, log.opens.len());
}

#[test]
fn discovery_is_asked_only_on_the_first_open() {
    let m = manager_for("host", 1433).using_named_connection();
    let log = drive(
        &m,
        vec![
            ConnEvent::HandshakeRouting { host: "host2".to_string(), port: 1434 },
            ConnEvent::HandshakeOk,
        ],
    );
    assert_eq!(
        log.opens,
        vec![("host".to_string(), 1433, true), ("host2".to_string(), 1434, false)]
    );
}

#[test]
fn open_failure_ends_the_attempt_with_that_error() {
    let m = manager_for("host", 1433);
    let (state, action) = m.start_connect();
    assert!(matches!(action, ConnAction::Open { .. }));
    let (state, action) = step(
        state,
        ConnEvent::OpenFailed { error: Error::Transport("connection refused".to_string()) },
    );
    assert!(matches!(action, ConnAction::Stop));
    let e = finish(state).unwrap_err();
    match e {
        Error::Transport(msg) => assert_eq!(msg, "connection refused"),
        _ => panic!("expected a transport error"),
    }
}

#[test]
fn hook_failure_ends_the_attempt_with_that_error() {
    let m = manager_for("host", 1433);
    let (state, _) = m.start_connect();
    let (state, _) = step(state, ConnEvent::Opened);
    let (state, action) = step(
        state,
        ConnEvent::HookFailed { error: Error::Transport("nodelay failed".to_string()) },
    );
    assert!(matches!(action, ConnAction::Stop));
    let e = finish(state).unwrap_err();
    assert!(matches!(e, Error::Transport(_)));
}

#[test]
fn handshake_failure_propagates_unchanged() {
    let m = manager_for("host", 1433);
    let log = drive(
        &m,
        vec![ConnEvent::HandshakeFailed { error: Error::Protocol("login failed".to_string()) }],
    );
    assert_eq!(log.opens.len(), 1);
    match log.result.unwrap_err() {
        Error::Protocol(msg) => assert_eq!(msg, "login failed"),
        _ => panic!("expected a protocol error"),
    }
}

#[test]
fn failure_on_the_redirected_attempt_propagates_unchanged() {
    let m = manager_for("host", 1433);
    let log = drive(
        &m,
        vec![
            ConnEvent::HandshakeRouting { host: "host2".to_string(), port: 1434 },
            ConnEvent::HandshakeFailed { error: Error::Transport("reset by peer".to_string()) },
        ],
    );
    assert_eq!(log.opens.len(), 2);
    assert!(matches!(log.result, Err(Error::Transport(_))));
}

#[test]
fn redirect_replaces_only_host_and_port() {
    let mut d = Descriptor::new("host".to_string(), 1433);
    d.user = "sa".to_string();
    d.password = "secret".to_string();
    d.instance = Some("SQLEXPRESS".to_string());
    let m = ConnectionManager::new(d);
    let (state, _) = m.start_connect();
    let (state, _) = step(state, ConnEvent::Opened);
    let (state, _) = step(state, ConnEvent::HookOk);
    let (_, action) = step(
        state,
        ConnEvent::HandshakeRouting { host: "host2".to_string(), port: 1434 },
    );
    match action {
        ConnAction::Open { desc, discover } => {
            assert_eq!(desc.host, "host2");
            assert_eq!(desc.port, 1434);
            assert_eq!(desc.user, "sa");
            assert_eq!(desc.password, "secret");
            assert_eq!(desc.instance.as_deref(), Some("SQLEXPRESS"));
            // The signal names the exact address, so discovery is not
            // repeated even though the instance is kept.
            assert!(!discover);
        }
        _ => panic!("expected an open action"),
    }
}

#[test]
fn handshake_action_carries_the_descriptor() {
    let m = manager_for("host", 1433);
    let (state, _) = m.start_connect();
    let (state, _) = step(state, ConnEvent::Opened);
    let (state, action) = step(state, ConnEvent::HookOk);
    match action {
        ConnAction::Handshake { desc } => assert_eq!(desc.host, "host"),
        _ => panic!("expected a handshake action"),
    }
    assert!(matches!(state, ConnState::Handshaking { .. }));
}
