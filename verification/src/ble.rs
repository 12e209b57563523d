//! Decisions of the Bluetooth GATT service.
//!
//! The service has a notify-control characteristic (writing the single byte 1
//! turns UART forwarding on, anything else turns it off), an SSID and a
//! password characteristic (each write of valid UTF-8 replaces that half of
//! the credentials and queues a join with the current pair), and a status read
//! that says whether the station is connected.
use vstd::prelude::*;
use vstd::utf8::{decode_utf8, valid_utf8};
use crate::commands::{CommandQueue, WifiCommand, QUEUE_CAPACITY};
use crate::wifi::WifiManager;

verus! {

/// `core::str::from_utf8`: the text that `bytes` encode, or `None` when they
/// are not valid UTF-8.
#[verifier::external_body]
fn utf8_text(bytes: &[u8]) -> (r: Option<&str>)
    ensures
        r is Some <==> valid_utf8(bytes@),
        r matches Some(s) ==> s@ == decode_utf8(bytes@),
{
    core::str::from_utf8(bytes).ok()
}

/// The text that `data` encode, when they are valid UTF-8.
pub open spec fn written_text(data: Seq<u8>) -> Option<Seq<char>> {
    if valid_utf8(data) {
        Some(decode_utf8(data))
    } else {
        None
    }
}

/// Whether a write of `data` to the notify-control characteristic turns
/// forwarding on: only the single byte 1 does.
pub fn notify_flag_for_write(data: &[u8]) -> (on: bool)
    ensures
        on == (data@ == seq![1u8]),
{
    if data.len() == 1 && data[0] == 1u8 {
        assert(data@ =~= seq![1u8]);
        true
    } else {
        false
    }
}

/// Whether UART data are forwarded to subscribers: off until a write to the
/// notify-control characteristic turns it on, and then as the last such write
/// says.
pub struct NotifyControl {
    on: bool,
}

impl View for NotifyControl {
    type V = bool;

    closed spec fn view(&self) -> bool {
        self.on
    }
}

impl NotifyControl {
    /// Forwarding off.
    pub fn new() -> (r: Self)
        ensures
            !r@,
    {
        NotifyControl { on: false }
    }

    /// Takes a write of `data` to the notify-control characteristic.
    pub fn on_write(&mut self, data: &[u8])
        ensures
            final(self)@ == (data@ == seq![1u8]),
    {
        self.on = notify_flag_for_write(data);
    }

    /// Whether UART data are forwarded.
    pub fn is_on(&self) -> (r: bool)
        ensures
            r == self@,
    {
        self.on
    }
}

/// The answer of the status read.
pub open spec fn status_text(connected: bool) -> Seq<char> {
    if connected {
        "Connected"@
    } else {
        "Not connected"@
    }
}

/// The status that a read of the Wi-Fi state reports.
pub fn on_ble_read(wifi_manager: &WifiManager) -> (r: &'static str)
    ensures
        r@ == status_text(wifi_manager@.connected),
{
    if wifi_manager.is_connected() {
        "Connected"
    } else {
        "Not connected"
    }
}

/// The last SSID and password written over Bluetooth.
pub struct CredentialInbox {
    ssid: String,
    pwd: String,
}

impl View for CredentialInbox {
    type V = (Seq<char>, Seq<char>);

    closed spec fn view(&self) -> (Seq<char>, Seq<char>) {
        (self.ssid@, self.pwd@)
    }
}

/// `queue` after offering it `cmd`: appended when it has room.
pub open spec fn offered(
    queue: Seq<(Seq<char>, Seq<char>)>,
    cmd: (Seq<char>, Seq<char>),
) -> Seq<(Seq<char>, Seq<char>)> {
    if queue.len() < QUEUE_CAPACITY {
        queue.push(cmd)
    } else {
        queue
    }
}

/// The credentials and the queue after a write of `data` to the SSID
/// characteristic.
pub open spec fn after_ssid_write(
    inbox: (Seq<char>, Seq<char>),
    queue: Seq<(Seq<char>, Seq<char>)>,
    data: Seq<u8>,
) -> ((Seq<char>, Seq<char>), Seq<(Seq<char>, Seq<char>)>) {
    match written_text(data) {
        Some(ssid) => ((ssid, inbox.1), offered(queue, (ssid, inbox.1))),
        None => (inbox, queue),
    }
}

/// The credentials and the queue after a write of `data` to the password
/// characteristic.
pub open spec fn after_pwd_write(
    inbox: (Seq<char>, Seq<char>),
    queue: Seq<(Seq<char>, Seq<char>)>,
    data: Seq<u8>,
) -> ((Seq<char>, Seq<char>), Seq<(Seq<char>, Seq<char>)>) {
    match written_text(data) {
        Some(pwd) => ((inbox.0, pwd), offered(queue, (inbox.0, pwd))),
        None => (inbox, queue),
    }
}

impl CredentialInbox {
    /// No SSID and no password yet.
    pub fn new() -> (r: Self)
        ensures
            r@ == (Seq::<char>::empty(), Seq::<char>::empty()),
    {
        CredentialInbox { ssid: String::new(), pwd: String::new() }
    }

    /// Takes a write to the SSID characteristic. When `data` is valid UTF-8
    /// its text becomes the SSID and a join with it and the current password
    /// is queued (dropped when the queue is full); the text is returned.
    /// Other data change nothing.
    pub fn on_ssid_write(&mut self, data: &[u8], queue: &mut CommandQueue) -> (r: Option<String>)
        ensures
            r matches Some(s) ==> Some(s@) == written_text(data@),
            r is None <==> written_text(data@) is None,
            (final(self)@, final(queue)@) == after_ssid_write(old(self)@, old(queue)@, data@),
    {
        match utf8_text(data) {
            Some(s) => {
                self.ssid = s.to_string();
                let pwd = self.pwd.clone();
                let _ = queue.enqueue(WifiCommand::Connect { ssid: s.to_string(), pwd });
                Some(s.to_string())
            },
            None => None,
        }
    }

    /// Takes a write to the password characteristic. When `data` is valid
    /// UTF-8 its text becomes the password and a join with the current SSID
    /// and it is queued (dropped when the queue is full); the text is
    /// returned. Other data change nothing.
    pub fn on_pwd_write(&mut self, data: &[u8], queue: &mut CommandQueue) -> (r: Option<String>)
        ensures
            r matches Some(s) ==> Some(s@) == written_text(data@),
            r is None <==> written_text(data@) is None,
            (final(self)@, final(queue)@) == after_pwd_write(old(self)@, old(queue)@, data@),
    {
        match utf8_text(data) {
            Some(s) => {
                self.pwd = s.to_string();
                let ssid = self.ssid.clone();
                let _ = queue.enqueue(WifiCommand::Connect { ssid, pwd: s.to_string() });
                Some(s.to_string())
            },
            None => None,
        }
    }
}

/// An SSID write and then a password write, both valid UTF-8, with room for
/// two commands, leave both texts as the credentials and queue two joins: the
/// first with the new SSID and the old password, the second with both new
/// texts.
pub proof fn ssid_then_password(
    inbox: (Seq<char>, Seq<char>),
    queue: Seq<(Seq<char>, Seq<char>)>,
    ssid_data: Seq<u8>,
    pwd_data: Seq<u8>,
)
    requires
        valid_utf8(ssid_data),
        valid_utf8(pwd_data),
        queue.len() + 2 <= QUEUE_CAPACITY,
    ensures
        ({
            let (inbox1, queue1) = after_ssid_write(inbox, queue, ssid_data);
            let (inbox2, queue2) = after_pwd_write(inbox1, queue1, pwd_data);
            let ssid = decode_utf8(ssid_data);
            let pwd = decode_utf8(pwd_data);
            &&& inbox2 == (ssid, pwd)
            &&& queue2 == queue.push((ssid, inbox.1)).push((ssid, pwd))
        }),
{
}

/// A write that is not valid UTF-8 changes neither the credentials nor the
/// queue; a valid one with the queue full changes the credentials and drops
/// the join.
pub proof fn writes_without_effect_on_queue(
    inbox: (Seq<char>, Seq<char>),
    queue: Seq<(Seq<char>, Seq<char>)>,
    data: Seq<u8>,
)
    ensures
        !valid_utf8(data) ==> after_ssid_write(inbox, queue, data) == (inbox, queue)
            && after_pwd_write(inbox, queue, data) == (inbox, queue),
        valid_utf8(data) && queue.len() >= QUEUE_CAPACITY ==> {
            &&& after_ssid_write(inbox, queue, data) == ((decode_utf8(data), inbox.1), queue)
            &&& after_pwd_write(inbox, queue, data) == ((inbox.0, decode_utf8(data)), queue)
        },
{
}

/// A valid SSID write makes its text the SSID and keeps the stored password,
/// whatever the queue holds; it queues a join with that SSID and the stored
/// password exactly when fewer than three commands wait, and otherwise leaves
/// the queue as it was.
pub proof fn ssid_write_keeps_password(
    inbox: (Seq<char>, Seq<char>),
    queue: Seq<(Seq<char>, Seq<char>)>,
    data: Seq<u8>,
)
    requires
        valid_utf8(data),
    ensures
        after_ssid_write(inbox, queue, data).0 == (decode_utf8(data), inbox.1),
        queue.len() < 3 ==> after_ssid_write(inbox, queue, data).1 == queue.push(
            (decode_utf8(data), inbox.1),
        ),
        queue.len() >= 3 ==> after_ssid_write(inbox, queue, data).1 == queue,
{
}

/// A valid password write makes its text the password and keeps the stored
/// SSID, whatever the queue holds; it queues a join with the stored SSID and
/// that password exactly when fewer than three commands wait, and otherwise
/// leaves the queue as it was.
pub proof fn pwd_write_keeps_ssid(
    inbox: (Seq<char>, Seq<char>),
    queue: Seq<(Seq<char>, Seq<char>)>,
    data: Seq<u8>,
)
    requires
        valid_utf8(data),
    ensures
        after_pwd_write(inbox, queue, data).0 == (inbox.0, decode_utf8(data)),
        queue.len() < 3 ==> after_pwd_write(inbox, queue, data).1 == queue.push(
            (inbox.0, decode_utf8(data)),
        ),
        queue.len() >= 3 ==> after_pwd_write(inbox, queue, data).1 == queue,
{
}

/// A password write and then an SSID write, both valid UTF-8, with room for
/// two commands, leave both texts as the credentials and queue two joins that
/// both carry the new password: the first with the old SSID, the second with
/// the new one. Whatever the queue held, the SSID write keeps that password.
pub proof fn password_then_ssid(
    inbox: (Seq<char>, Seq<char>),
    queue: Seq<(Seq<char>, Seq<char>)>,
    other_queue: Seq<(Seq<char>, Seq<char>)>,
    pwd_data: Seq<u8>,
    ssid_data: Seq<u8>,
)
    requires
        valid_utf8(pwd_data),
        valid_utf8(ssid_data),
        queue.len() + 2 <= QUEUE_CAPACITY,
    ensures
        ({
            let (inbox1, queue1) = after_pwd_write(inbox, queue, pwd_data);
            let (inbox2, queue2) = after_ssid_write(inbox1, queue1, ssid_data);
            let ssid = decode_utf8(ssid_data);
            let pwd = decode_utf8(pwd_data);
            &&& inbox2 == (ssid, pwd)
            &&& queue2 == queue.push((inbox.0, pwd)).push((ssid, pwd))
            &&& after_ssid_write(inbox1, other_queue, ssid_data).0 == (ssid, pwd)
        }),
{
}

/// What the forwarding loop does with one UART read.
pub enum Forward {
    /// Set the notify characteristic to these bytes and notify subscribers.
    Notify(Vec<u8>),
    /// Nothing arrived: do nothing.
    Quiet,
    /// The read failed with this error code: report it.
    Report(i32),
}

/// The decision on one UART read: bytes are forwarded, an empty read is
/// ignored, an error is reported.
pub fn forward_uart_read(read: Result<Vec<u8>, i32>) -> (r: Forward)
    ensures
        match read {
            Ok(data) => if data@.len() > 0 {
                r matches Forward::Notify(d) && d@ == data@
            } else {
                r is Quiet
            },
            Err(code) => r == Forward::Report(code),
        },
{
    match read {
        Ok(data) => if data.len() > 0 {
            Forward::Notify(data)
        } else {
            Forward::Quiet
        },
        Err(code) => Forward::Report(code),
    }
}

} // verus!
