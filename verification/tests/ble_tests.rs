use sensor_bridge::ble::NotifyControl;
use sensor_bridge::ble::{
    forward_uart_read, notify_flag_for_write, on_ble_read, CredentialInbox, Forward,
};
use sensor_bridge::commands::{CommandQueue, WifiCommand};
use sensor_bridge::wifi::{LinkStep, WifiAction, WifiEvent, WifiManager};

fn pairs(cmds: Vec<WifiCommand>) -> Vec<(String, String)> {
    cmds.into_iter()
        .map(|c| match c {
            WifiCommand::Connect { ssid, pwd } => (ssid, pwd),
        })
        .collect()
}

#[test]
fn notify_flag_only_for_single_one() {
    assert!(notify_flag_for_write(&[1u8]));
    assert!(!notify_flag_for_write(&[0u8]));
    assert!(!notify_flag_for_write(&[]));
    assert!(!notify_flag_for_write(&[1u8, 0u8]));
    assert!(!notify_flag_for_write(b"1"));
}

#[test]
fn status_read_follows_connection() {
    let mut m = WifiManager::new();
    assert_eq!(on_ble_read(&m), "Not connected");
    let _ = m.connect("n", "p");
    let _ = m.resume(WifiEvent::LinkUp(false));
    let mut action = m.resume(WifiEvent::Done);
    while let WifiAction::Perform(step) = action {
        assert!(!matches!(step, LinkStep::QueryLink));
        action = m.resume(WifiEvent::Done);
    }
    assert_eq!(on_ble_read(&m), "Connected");
}

#[test]
fn ssid_then_password_queue_two_joins() {
    let mut inbox = CredentialInbox::new();
    let mut q = CommandQueue::new();
    assert_eq!(inbox.on_ssid_write(b"home", &mut q), Some("home".to_string()));
    assert_eq!(inbox.on_pwd_write(b"secret", &mut q), Some("secret".to_string()));
    assert_eq!(
        pairs(q.drain()),
        vec![
            ("home".to_string(), String::new()),
            ("home".to_string(), "secret".to_string()),
        ]
    );
    assert!(q.dequeue().is_none());
}

#[test]
fn utf8_text_is_decoded() {
    let mut inbox = CredentialInbox::new();
    let mut q = CommandQueue::new();
    let data = "Café".as_bytes();
    assert_eq!(inbox.on_ssid_write(data, &mut q), Some("Café".to_string()));
    assert_eq!(pairs(q.drain()), vec![("Café".to_string(), String::new())]);
}

#[test]
fn invalid_utf8_is_ignored() {
    let mut inbox = CredentialInbox::new();
    let mut q = CommandQueue::new();
    assert_eq!(inbox.on_ssid_write(&[0xff, 0xfe], &mut q), None);
    assert_eq!(inbox.on_pwd_write(&[0xc3], &mut q), None);
    assert!(q.drain().is_empty());
    inbox.on_pwd_write(b"pw", &mut q);
    assert_eq!(pairs(q.drain()), vec![(String::new(), "pw".to_string())]);
}

#[test]
fn full_queue_drops_the_fourth_join() {
    let mut inbox = CredentialInbox::new();
    let mut q = CommandQueue::new();
    inbox.on_ssid_write(b"a", &mut q);
    inbox.on_ssid_write(b"b", &mut q);
    inbox.on_ssid_write(b"c", &mut q);
    inbox.on_ssid_write(b"d", &mut q);
    // The credentials still change.
    inbox.on_pwd_write(b"x", &mut q);
    let got = pairs(q.drain());
    assert_eq!(got.len(), 3);
    assert_eq!(got[2].0, "c");
    inbox.on_pwd_write(b"y", &mut q);
    assert_eq!(pairs(q.drain()), vec![("d".to_string(), "y".to_string())]);
}

#[test]
fn queue_is_first_in_first_out() {
    let mut q = CommandQueue::new();
    let cmd = |s: &str| WifiCommand::Connect { ssid: s.to_string(), pwd: "p".to_string() };
    assert!(q.enqueue(cmd("1")));
    assert!(q.enqueue(cmd("2")));
    assert!(q.enqueue(cmd("3")));
    assert!(!q.enqueue(cmd("4")));
    match q.dequeue() {
        Some(WifiCommand::Connect { ssid, .. }) => assert_eq!(ssid, "1"),
        None => panic!("queue empty"),
    }
    assert!(q.enqueue(cmd("5")));
    let got: Vec<String> = pairs(q.drain()).into_iter().map(|(s, _)| s).collect();
    assert_eq!(got, vec!["2", "3", "5"]);
}

#[test]
fn uart_reads_are_forwarded() {
    match forward_uart_read(Ok(vec![1, 2, 3])) {
        Forward::Notify(d) => assert_eq!(d, vec![1, 2, 3]),
        _ => panic!("expected a notification"),
    }
    assert!(matches!(forward_uart_read(Ok(vec![])), Forward::Quiet));
    assert!(matches!(forward_uart_read(Err(0x107)), Forward::Report(0x107)));
}

#[test]
fn notify_control_starts_off() {
    let mut c = NotifyControl::new();
    assert!(!c.is_on());
    c.on_write(&[1u8]);
    assert!(c.is_on());
    c.on_write(&[2u8]);
    assert!(!c.is_on());
    c.on_write(&[1u8]);
    c.on_write(&[]);
    assert!(!c.is_on());
}
