use bb8_tiberius::ConnectionManager;
use bb8_tiberius::Descriptor;
use bb8_tiberius::EncryptionMode;
use bb8_tiberius::Error;
use bb8_tiberius::IntoConfig;
use bb8_tiberius::from_ado_string;

#[test]
fn parses_full_connection_string() {
    let d = from_ado_string("server=tcp:myhost,1433;user id=sa;password=secret;encrypt=true")
        .unwrap();
    assert_eq!(d.host, "myhost");
    assert_eq!(d.port, 1433);
    assert!(d.instance.is_none());
    assert_eq!(d.user, "sa");
    assert_eq!(d.password, "secret");
    assert_eq!(d.encrypt, EncryptionMode::Required);
}

#[test]
fn missing_server_address_is_config_error() {
    let r = from_ado_string("user id=sa;password=secret");
    assert!(matches!(r, Err(Error::Config(_))));
}

#[test]
fn empty_string_is_config_error() {
    let r = from_ado_string("");
    assert!(matches!(r, Err(Error::Config(_))));
}

#[test]
fn empty_server_value_is_config_error() {
    let r = from_ado_string("server=");
    assert!(matches!(r, Err(Error::Config(_))));
}

#[test]
fn named_instance_is_recognised() {
    let d = from_ado_string("server=myhost\\SQLEXPRESS").unwrap();
    assert_eq!(d.host, "myhost");
    assert_eq!(d.instance.as_deref(), Some("SQLEXPRESS"));
    assert!(d.named_instance());
    // No explicit port: the browser port, from which discovery learns the
    // real one.
    assert_eq!(d.port, 1434);
}

#[test]
fn named_instance_with_explicit_port() {
    let d = from_ado_string("server=myhost\\SQLEXPRESS,1500").unwrap();
    assert_eq!(d.host, "myhost");
    assert_eq!(d.instance.as_deref(), Some("SQLEXPRESS"));
    assert_eq!(d.port, 1500);
}

#[test]
fn local_alias_reads_as_localhost() {
    let d = from_ado_string("server=tcp:(local),4200").unwrap();
    assert_eq!(d.host, "localhost");
    assert_eq!(d.port, 4200);
    let d = from_ado_string("server=(local)").unwrap();
    assert_eq!(d.host, "localhost");
}

#[test]
fn more_than_one_comma_is_config_error() {
    assert!(matches!(from_ado_string("server=myhost,1433,1434"), Err(Error::Config(_))));
}

#[test]
fn named_instance_must_not_be_empty() {
    assert!(matches!(from_ado_string("server=myhost\\"), Err(Error::Config(_))));
    assert!(matches!(from_ado_string("server=\\SQLEXPRESS"), Err(Error::Config(_))));
}

#[test]
fn bare_protocol_prefix_is_config_error() {
    assert!(matches!(from_ado_string("server=tcp:"), Err(Error::Config(_))));
}

#[test]
fn bare_host_gets_default_port() {
    let d = from_ado_string("server=myhost").unwrap();
    assert_eq!(d.host, "myhost");
    assert_eq!(d.port, 1433);
    assert!(!d.named_instance());
}

#[test]
fn port_must_be_a_number() {
    assert!(matches!(from_ado_string("server=myhost,abc"), Err(Error::Config(_))));
    assert!(matches!(from_ado_string("server=myhost,"), Err(Error::Config(_))));
}

#[test]
fn port_must_fit() {
    assert!(matches!(from_ado_string("server=myhost,70000"), Err(Error::Config(_))));
    let d = from_ado_string("server=myhost,65535").unwrap();
    assert_eq!(d.port, 65535);
}

#[test]
fn keys_are_case_insensitive_values_are_not() {
    let d = from_ado_string("SERVER=MyHost;User Id=SA").unwrap();
    assert_eq!(d.host, "MyHost");
    assert_eq!(d.user, "SA");
}

#[test]
fn spaces_around_keys_and_values_are_trimmed() {
    let d = from_ado_string(" server = myhost , 1500 ; password = hunter two ").unwrap();
    assert_eq!(d.host, "myhost");
    assert_eq!(d.port, 1500);
    assert_eq!(d.password, "hunter two");
}

#[test]
fn later_keys_override_earlier_ones() {
    let d = from_ado_string("server=first;server=second,99").unwrap();
    assert_eq!(d.host, "second");
    assert_eq!(d.port, 99);
}

#[test]
fn encrypt_values() {
    let on = from_ado_string("server=h;encrypt=yes").unwrap();
    assert_eq!(on.encrypt, EncryptionMode::Required);
    let off = from_ado_string("server=h;encrypt=false").unwrap();
    assert_eq!(off.encrypt, EncryptionMode::Off);
    let off = from_ado_string("server=h;encrypt=NO").unwrap();
    assert_eq!(off.encrypt, EncryptionMode::Off);
    let plain = from_ado_string("server=h;encrypt=DANGER_PLAINTEXT").unwrap();
    assert_eq!(plain.encrypt, EncryptionMode::NotSupported);
    let strict = from_ado_string("server=h;encrypt=Strict").unwrap();
    assert_eq!(strict.encrypt, EncryptionMode::Strict);
    assert!(matches!(from_ado_string("server=h;encrypt=bogus"), Err(Error::Config(_))));
}

#[test]
fn plaintext_opt_out_is_case_sensitive() {
    assert!(matches!(
        from_ado_string("server=h;encrypt=danger_plaintext"),
        Err(Error::Config(_))
    ));
}

#[test]
fn encrypt_defaults_to_required() {
    let d = from_ado_string("server=h").unwrap();
    assert_eq!(d.encrypt, EncryptionMode::Required);
}

#[test]
fn key_synonyms_are_accepted() {
    let d = from_ado_string("data source=db,1500;uid=sa;pwd=secret").unwrap();
    assert_eq!(d.host, "db");
    assert_eq!(d.port, 1500);
    assert_eq!(d.user, "sa");
    assert_eq!(d.password, "secret");
    let d = from_ado_string("server=db;username=admin").unwrap();
    assert_eq!(d.user, "admin");
    let d = from_ado_string("server=db;user=u1").unwrap();
    assert_eq!(d.user, "u1");
}

#[test]
fn blank_segments_are_ignored() {
    let d = from_ado_string(";;server=h; ;").unwrap();
    assert_eq!(d.host, "h");
}

#[test]
fn non_blank_segment_without_equals_is_config_error() {
    assert!(matches!(from_ado_string("server=h;junk"), Err(Error::Config(_))));
}

#[test]
fn unknown_keys_are_ignored() {
    let d = from_ado_string("server=h;application name=test").unwrap();
    assert_eq!(d.host, "h");
}

#[test]
fn build_from_connection_string() {
    let m = ConnectionManager::build("server=tcp:db,1434;user id=sa").unwrap();
    assert_eq!(m.config.host, "db");
    assert_eq!(m.config.port, 1434);
    assert!(!m.use_named_connection);
}

#[test]
fn build_from_descriptor_is_identity() {
    let d = Descriptor::new("somewhere".to_string(), 1500);
    let m = ConnectionManager::build(d).unwrap();
    assert_eq!(m.config.host, "somewhere");
    assert_eq!(m.config.port, 1500);
}

#[test]
fn build_from_bad_string_is_config_error() {
    let r = ConnectionManager::build("encrypt=true");
    assert!(matches!(r, Err(Error::Config(_))));
}

#[test]
fn into_config_on_str_parses() {
    let d = "server=h,1433".into_config().unwrap();
    assert_eq!(d.host, "h");
}

#[test]
fn error_message_is_returned() {
    let e = from_ado_string("no address here").unwrap_err();
    assert!(!e.message().is_empty());
}
