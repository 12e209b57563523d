use sensor_bridge::buffers::{bounded_password, bounded_ssid, CredentialError};
use sensor_bridge::wifi::{LinkStep, StoreKey, WifiAction, WifiError, WifiEvent, WifiManager};

fn expect_step(action: WifiAction) -> LinkStep {
    match action {
        WifiAction::Perform(step) => step,
        WifiAction::Finished(r) => panic!("expected a step, got the end {:?}", r),
    }
}

fn expect_end(action: WifiAction) -> Result<(), WifiError> {
    match action {
        WifiAction::Perform(_) => panic!("expected the end, got a step"),
        WifiAction::Finished(r) => r,
    }
}

/// Runs a join whose every step succeeds; returns the steps asked for after the link query.
fn complete_join(m: &mut WifiManager, first: WifiAction, up: bool) -> Vec<String> {
    let mut log = Vec::new();
    assert!(matches!(expect_step(first), LinkStep::QueryLink));
    let mut action = m.resume(WifiEvent::LinkUp(up));
    loop {
        match action {
            WifiAction::Finished(r) => {
                assert_eq!(r, Ok(()));
                return log;
            }
            WifiAction::Perform(step) => {
                let entry = match step {
                    LinkStep::QueryLink => "query".to_string(),
                    LinkStep::Disconnect => "disconnect".to_string(),
                    LinkStep::Configure { ssid, password } => {
                        format!("configure {} {}", ssid.as_str(), password.as_str())
                    }
                    LinkStep::Start => "start".to_string(),
                    LinkStep::Connect => "connect".to_string(),
                    LinkStep::WaitNetifUp => "wait".to_string(),
                    LinkStep::Store { key, value } => format!("store {} {}", key.name(), value),
                    LinkStep::Load { key } => format!("load {}", key.name()),
                };
                log.push(entry);
                action = m.resume(WifiEvent::Done);
            }
        }
    }
}

#[test]
fn ssid_buffer_counts_bytes() {
    let s32 = "a".repeat(32);
    assert!(bounded_ssid(&s32).is_ok());
    assert_eq!(bounded_ssid(&s32).unwrap().as_str(), s32);
    assert_eq!(bounded_ssid(&"a".repeat(33)).unwrap_err(), CredentialError::SsidTooLong);
    // 16 two-byte characters are 32 bytes, 17 are 34.
    assert!(bounded_ssid(&"é".repeat(16)).is_ok());
    assert_eq!(bounded_ssid(&"é".repeat(17)).unwrap_err(), CredentialError::SsidTooLong);
    assert!(bounded_ssid("").is_ok());
}

#[test]
fn password_buffer_counts_bytes() {
    assert!(bounded_password(&"p".repeat(64)).is_ok());
    assert_eq!(bounded_password(&"p".repeat(65)).unwrap_err(), CredentialError::PasswordTooLong);
    assert_eq!(bounded_password(&"€".repeat(22)).unwrap_err(), CredentialError::PasswordTooLong);
    assert!(bounded_password(&"€".repeat(21)).is_ok());
}

#[test]
fn store_keys() {
    assert_eq!(StoreKey::Ssid.name(), "wifi_ssid");
    assert_eq!(StoreKey::Password.name(), "wifi_pwd");
    assert_eq!(StoreKey::Ssid.read_len(), 32);
    assert_eq!(StoreKey::Password.read_len(), 64);
}

#[test]
fn new_manager_is_idle_and_offline() {
    let m = WifiManager::new();
    assert!(!m.is_connected());
    assert!(m.is_idle());
}

#[test]
fn join_with_link_down() {
    let mut m = WifiManager::new();
    let first = m.connect("home", "secret");
    let log = complete_join(&mut m, first, false);
    assert_eq!(
        log,
        vec![
            "configure home secret",
            "start",
            "connect",
            "wait",
            "store wifi_ssid home",
            "store wifi_pwd secret",
        ]
    );
    assert!(m.is_connected());
    assert!(m.is_idle());
}

#[test]
fn join_with_link_up_disconnects_first() {
    let mut m = WifiManager::new();
    let first = m.connect("cafe", "latte123");
    let log = complete_join(&mut m, first, true);
    assert_eq!(log[0], "disconnect");
    assert_eq!(log[1], "configure cafe latte123");
    assert_eq!(log.len(), 7);
    assert!(m.is_connected());
}

#[test]
fn too_long_ssid_is_refused() {
    let mut m = WifiManager::new();
    let r = expect_end(m.connect(&"s".repeat(33), "pw"));
    assert_eq!(r, Err(WifiError::SsidTooLong));
    assert!(m.is_idle());
    assert!(!m.is_connected());
}

#[test]
fn too_long_password_is_refused() {
    let mut m = WifiManager::new();
    let r = expect_end(m.connect("net", &"p".repeat(65)));
    assert_eq!(r, Err(WifiError::PasswordTooLong));
    // The SSID is checked first.
    let r = expect_end(m.connect(&"s".repeat(40), &"p".repeat(65)));
    assert_eq!(r, Err(WifiError::SsidTooLong));
}

#[test]
fn failed_step_ends_join_and_keeps_flag() {
    let mut m = WifiManager::new();
    let first = m.connect("home", "secret");
    assert!(matches!(expect_step(first), LinkStep::QueryLink));
    assert!(matches!(expect_step(m.resume(WifiEvent::LinkUp(false))), LinkStep::Configure { .. }));
    assert!(matches!(expect_step(m.resume(WifiEvent::Done)), LinkStep::Start));
    let r = expect_end(m.resume(WifiEvent::Failed(0x3001)));
    assert_eq!(r, Err(WifiError::Esp(0x3001)));
    assert!(!m.is_connected());
    assert!(m.is_idle());
}

#[test]
fn failed_join_after_success_keeps_connected() {
    let mut m = WifiManager::new();
    let first = m.connect("home", "secret");
    complete_join(&mut m, first, false);
    assert!(m.is_connected());
    let first = m.connect("other", "pw");
    assert!(matches!(expect_step(first), LinkStep::QueryLink));
    assert!(matches!(expect_step(m.resume(WifiEvent::LinkUp(true))), LinkStep::Disconnect));
    let r = expect_end(m.resume(WifiEvent::Failed(-1)));
    assert_eq!(r, Err(WifiError::Esp(-1)));
    assert!(m.is_connected());
}

#[test]
fn storing_the_password_is_the_last_step() {
    let mut m = WifiManager::new();
    let _ = m.connect("a", "b");
    let _ = m.resume(WifiEvent::LinkUp(false));
    for _ in 0..5 {
        let _ = m.resume(WifiEvent::Done);
    }
    assert!(!m.is_connected());
    let r = expect_end(m.resume(WifiEvent::Failed(7)));
    assert_eq!(r, Err(WifiError::Esp(7)));
    assert!(!m.is_connected());
}

#[test]
fn expected_events() {
    let mut m = WifiManager::new();
    assert!(!m.expects_event(&WifiEvent::Done));
    let _ = m.connect("a", "b");
    assert!(m.expects_event(&WifiEvent::LinkUp(true)));
    assert!(m.expects_event(&WifiEvent::Failed(1)));
    assert!(!m.expects_event(&WifiEvent::Done));
    let _ = m.resume(WifiEvent::LinkUp(false));
    assert!(m.expects_event(&WifiEvent::Done));
    assert!(!m.expects_event(&WifiEvent::LinkUp(false)));
    assert!(!m.expects_event(&WifiEvent::Loaded(None)));
}

#[test]
fn saved_credentials_are_joined() {
    let mut m = WifiManager::new();
    match expect_step(m.try_connect_saved()) {
        LinkStep::Load { key } => assert_eq!(key, StoreKey::Ssid),
        _ => panic!("expected a load"),
    }
    match expect_step(m.resume(WifiEvent::Loaded(Some("home".to_string())))) {
        LinkStep::Load { key } => assert_eq!(key, StoreKey::Password),
        _ => panic!("expected a load"),
    }
    let next = m.resume(WifiEvent::Loaded(Some("secret".to_string())));
    let log = complete_join(&mut m, next, false);
    assert_eq!(log[0], "configure home secret");
    assert_eq!(log[4], "store wifi_ssid home");
    assert_eq!(log[5], "store wifi_pwd secret");
    assert!(m.is_connected());
}

#[test]
fn stored_credentials_round_trip() {
    // What a join stores is what a later saved join loads and joins with.
    let mut m = WifiManager::new();
    let first = m.connect("lab-net", "p4ss word");
    let mut stored: Vec<(StoreKey, String)> = Vec::new();
    assert!(matches!(expect_step(first), LinkStep::QueryLink));
    let mut action = m.resume(WifiEvent::LinkUp(false));
    while let WifiAction::Perform(step) = action {
        if let LinkStep::Store { key, value } = step {
            stored.push((key, value));
        }
        action = m.resume(WifiEvent::Done);
    }
    assert_eq!(stored.len(), 2);
    let mut m2 = WifiManager::new();
    let mut action = m2.try_connect_saved();
    loop {
        match action {
            WifiAction::Perform(LinkStep::Load { key }) => {
                let value = stored.iter().find(|(k, _)| *k == key).map(|(_, v)| v.clone());
                action = m2.resume(WifiEvent::Loaded(value));
            }
            WifiAction::Perform(LinkStep::Configure { ssid, password }) => {
                assert_eq!(ssid.as_str(), "lab-net");
                assert_eq!(password.as_str(), "p4ss word");
                return;
            }
            WifiAction::Perform(LinkStep::QueryLink) => {
                action = m2.resume(WifiEvent::LinkUp(false));
            }
            _ => panic!("unexpected answer"),
        }
    }
}

#[test]
fn nothing_saved_ends_without_error() {
    let mut m = WifiManager::new();
    let _ = m.try_connect_saved();
    assert_eq!(expect_end(m.resume(WifiEvent::Loaded(None))), Ok(()));
    assert!(m.is_idle());

    let _ = m.try_connect_saved();
    assert_eq!(expect_end(m.resume(WifiEvent::Failed(0x1102))), Ok(()));

    let _ = m.try_connect_saved();
    let _ = m.resume(WifiEvent::Loaded(Some("home".to_string())));
    assert_eq!(expect_end(m.resume(WifiEvent::Loaded(None))), Ok(()));

    let _ = m.try_connect_saved();
    let _ = m.resume(WifiEvent::Loaded(Some("home".to_string())));
    assert_eq!(expect_end(m.resume(WifiEvent::Failed(5))), Ok(()));
    assert!(!m.is_connected());
}

#[test]
fn saved_credentials_too_long_are_ignored() {
    let mut m = WifiManager::new();
    let _ = m.try_connect_saved();
    let _ = m.resume(WifiEvent::Loaded(Some("x".repeat(33))));
    assert_eq!(expect_end(m.resume(WifiEvent::Loaded(Some("pw".to_string())))), Ok(()));
    let _ = m.try_connect_saved();
    let _ = m.resume(WifiEvent::Loaded(Some("net".to_string())));
    assert_eq!(expect_end(m.resume(WifiEvent::Loaded(Some("y".repeat(65))))), Ok(()));
    assert!(m.is_idle());
    assert!(!m.is_connected());
}

#[test]
fn failure_event_classification() {
    assert!(WifiEvent::Failed(3).is_failure());
    assert!(!WifiEvent::Done.is_failure());
    assert!(!WifiEvent::LinkUp(true).is_failure());
}

#[test]
fn connected_flag_over_many_calls() {
    let mut m = WifiManager::new();
    // A refused join and a failed join leave the station offline.
    let _ = m.connect(&"s".repeat(33), "pw");
    let _ = m.connect("a", "b");
    let _ = m.resume(WifiEvent::Failed(1));
    assert!(!m.is_connected());
    // A completed join connects it.
    let first = m.connect("a", "b");
    complete_join(&mut m, first, false);
    assert!(m.is_connected());
    // Later failures and a saved join with nothing saved do not clear it.
    let _ = m.connect("c", "d");
    let _ = m.resume(WifiEvent::LinkUp(true));
    let _ = m.resume(WifiEvent::Failed(2));
    let _ = m.try_connect_saved();
    let _ = m.resume(WifiEvent::Loaded(None));
    let _ = m.connect(&"s".repeat(40), "x");
    assert!(m.is_connected());
}
