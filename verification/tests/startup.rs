use winetd::config::ConfigRecord;
use winetd::error::Error;
use winetd::registry::{BuildPhase, ListenerRegistry, RegistryBuilder};

fn record(port: u16, command: &str) -> ConfigRecord {
    ConfigRecord { port, command: command.to_owned() }
}

/// Drives a full, successful startup over the given records, mimicking the
/// host program: each requested bind succeeds.
fn build_all(records: Vec<ConfigRecord>) -> ListenerRegistry {
    let mut b = RegistryBuilder::new();
    for r in records {
        let req = b.offer_record(r).expect("valid record admitted");
        assert!(req.token >= 1);
        b.bind_succeeded();
    }
    b.finish()
}

#[test]
fn three_records_give_three_listeners_with_distinct_tokens() {
    let reg = build_all(vec![
        record(9000, "echo"),
        record(9001, "cat"),
        record(9002, "logger --tag inet"),
    ]);
    assert_eq!(reg.len(), 3);
    let mut tokens: Vec<usize> = Vec::new();
    for t in 1..=3usize {
        let e = reg.lookup(t).expect("assigned token resolves");
        assert_eq!(e.token, t);
        assert!(e.token != 0);
        assert!(!tokens.contains(&e.token));
        tokens.push(e.token);
    }
    assert_eq!(reg.lookup(1).unwrap().port, 9000);
    assert_eq!(reg.lookup(2).unwrap().port, 9001);
    assert_eq!(reg.lookup(3).unwrap().port, 9002);
    assert_eq!(reg.lookup(2).unwrap().command, "cat");
    let entries = reg.all_entries();
    assert_eq!(entries.len(), 3);
    assert!(entries.iter().enumerate().all(|(i, e)| e.token == i + 1));
}

#[test]
fn control_token_never_resolves() {
    let reg = build_all(vec![record(9000, "echo"), record(9001, "cat")]);
    assert!(reg.lookup(0).is_none());
    assert!(reg.lookup(3).is_none());
    assert!(reg.lookup(usize::MAX).is_none());
}

#[test]
fn empty_startup_gives_empty_registry() {
    let reg = build_all(Vec::new());
    assert_eq!(reg.len(), 0);
    assert!(reg.lookup(1).is_none());
}

#[test]
fn missing_source_fails_with_environment_error_and_binds_nothing() {
    let mut b = RegistryBuilder::new();
    // The source is found absent before any record is read, so the host has
    // performed no bind and nothing is there to release.
    assert_eq!(b.entries.len(), 0);
    let e = b.source_missing();
    assert_eq!(e, Error::EnvironmentError);
    assert!(matches!(b.phase, BuildPhase::Failed { err: Error::EnvironmentError }));
    assert_eq!(b.entries.len(), 0);
}

#[test]
fn invalid_record_midway_releases_every_bound_socket() {
    let mut b = RegistryBuilder::new();
    let mut bound: Vec<u16> = Vec::new();
    for r in [record(9000, "echo"), record(9001, "cat")] {
        let req = b.offer_record(r).expect("valid record admitted");
        bound.push(req.port);
        b.bind_succeeded();
    }
    // The third record of four is invalid: an empty command.
    let err = b.offer_record(record(9002, "")).expect_err("invalid record refused");
    assert_eq!(err, Error::ConfigError);
    let to_release = b.release_request();
    assert_eq!(to_release, vec![9000, 9001]);
    for p in &to_release {
        let i = bound.iter().position(|q| q == p).expect("only bound ports released");
        bound.remove(i);
    }
    assert!(bound.is_empty(), "all-or-nothing: no socket stays bound");
    let e = b.released();
    assert_eq!(e, Error::ConfigError);
    assert!(matches!(b.phase, BuildPhase::Failed { err: Error::ConfigError }));
}

#[test]
fn zero_port_record_is_invalid() {
    let mut b = RegistryBuilder::new();
    let err = b.offer_record(record(0, "echo")).expect_err("port outside 1..=65535");
    assert_eq!(err, Error::ConfigError);
}

#[test]
fn failed_bind_reports_the_port_and_releases_earlier_sockets() {
    let mut b = RegistryBuilder::new();
    let req = b.offer_record(record(9000, "echo")).unwrap();
    assert_eq!(req, winetd::registry::BindRequest { port: 9000, token: 1 });
    b.bind_succeeded();
    let req = b.offer_record(record(9001, "cat")).unwrap();
    assert_eq!(req.port, 9001);
    assert_eq!(req.token, 2);
    let e = b.bind_failed();
    assert_eq!(e, Error::BindError { port: 9001 });
    assert_eq!(b.release_request(), vec![9000]);
    let e = b.released();
    assert_eq!(e, Error::BindError { port: 9001 });
}

#[test]
fn record_validity_is_port_and_command() {
    assert!(record(1, "x").is_valid());
    assert!(record(65535, "worker --echo").is_valid());
    assert!(!record(0, "x").is_valid());
    assert!(!record(9000, "").is_valid());
}
