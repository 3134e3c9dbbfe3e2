use bb8_tiberius::ConnectionManager;
use bb8_tiberius::Descriptor;
use bb8_tiberius::Error;
use bb8_tiberius::Handle;
use bb8_tiberius::HandleStatus;

#[test]
fn fresh_handle_is_live_and_not_broken() {
    let mut h = Handle::new_live("host".to_string(), 1433);
    assert_eq!(h.status, HandleStatus::Live);
    assert!(h.is_live());
    assert!(!h.has_broken());
    let m = ConnectionManager::new(Descriptor::new("host".to_string(), 1433));
    assert!(!m.has_broken(&mut h));
}

#[test]
fn healthy_probe_is_idempotent() {
    let mut h = Handle::new_live("host".to_string(), 1433);
    assert!(h.record_probe(Ok(())).is_ok());
    assert!(h.is_live());
    assert!(h.record_probe(Ok(())).is_ok());
    assert!(h.is_live());
    assert!(!h.has_broken());
}

#[test]
fn failed_probe_invalidates_the_handle_and_returns_the_error() {
    let mut h = Handle::new_live("host".to_string(), 1433);
    let r = h.record_probe(Err(Error::Transport("broken pipe".to_string())));
    match r.unwrap_err() {
        Error::Transport(msg) => assert_eq!(msg, "broken pipe"),
        _ => panic!("expected a transport error"),
    }
    assert_eq!(h.status, HandleStatus::Invalid);
    assert!(!h.is_live());
    assert!(h.has_broken());
}

#[test]
fn manager_validate_mirrors_the_probe() {
    let m = ConnectionManager::new(Descriptor::new("host".to_string(), 1433));
    let mut h = Handle::new_live("host".to_string(), 1433);
    assert!(m.validate(&mut h, Ok(())).is_ok());
    assert!(h.is_live());
    let r = m.validate(&mut h, Err(Error::Protocol("probe query failed".to_string())));
    assert!(matches!(r, Err(Error::Protocol(_))));
    assert_eq!(h.status, HandleStatus::Invalid);
    assert!(m.has_broken(&mut Handle::new_live("other".to_string(), 1)) == false);
}

#[test]
fn broken_mark_is_reported_without_any_probe() {
    let mut h = Handle::new_live("host".to_string(), 1433);
    h.mark_broken();
    assert_eq!(h.status, HandleStatus::Broken);
    assert!(h.has_broken());
}

#[test]
fn has_broken_reads_recorded_state_only() {
    // No transport exists at all behind this handle; the check still answers
    // instantly, from the recorded state, without attempting any I/O.
    let mut h = Handle::new_live("no-such-host.invalid".to_string(), 1);
    assert!(!h.has_broken());
    h.mark_broken();
    assert!(h.has_broken());
}

#[test]
fn manager_construction() {
    let d = Descriptor::new("host".to_string(), 1433);
    let m = ConnectionManager::new(d);
    assert_eq!(m.config.host, "host");
    assert!(!m.use_named_connection);
    let m = m.using_named_connection();
    assert!(m.use_named_connection);
    assert_eq!(m.config.host, "host");
}

#[test]
fn descriptor_redirect_and_clone() {
    let mut d = Descriptor::new("host".to_string(), 1433);
    d.user = "sa".to_string();
    d.instance = Some("SQLEXPRESS".to_string());
    let c = d.clone();
    assert_eq!(c.host, d.host);
    assert_eq!(c.user, d.user);
    let r = d.redirected("host2".to_string(), 1434);
    assert_eq!(r.host, "host2");
    assert_eq!(r.port, 1434);
    assert_eq!(r.user, "sa");
    assert_eq!(r.instance.as_deref(), Some("SQLEXPRESS"));
}
