//! The Wi-Fi station manager as a state machine.
//!
//! Joining a network alternates work on the radio driver and the flash store
//! with decisions. The manager makes the decisions: each call hands back the
//! next [`LinkStep`] to perform, and the caller reports how it went with a
//! [`WifiEvent`], until the manager answers with [`WifiAction::Finished`].
//!
//! A join (`connect`) first checks that the SSID fits in 32 bytes and the
//! password in 64, then: asks whether the link is up, drops it if so, writes
//! the station configuration, starts the driver, connects, waits for the
//! network interface, stores the SSID and then the password, and only then
//! counts the station as connected. The first failing step ends the join with
//! its error code and leaves the connected flag as it was.
//!
//! A join from saved credentials (`try_connect_saved`) first loads the SSID and
//! then the password; when either is missing, unreadable or too long for its
//! buffer, nothing is joined and the call ends without error.
use vstd::prelude::*;
use crate::buffers::{bounded_password, bounded_ssid, password_buffer_text, ssid_buffer_text, utf8_len};

verus! {

/// A key of the credential store.
#[derive(Debug, Clone, Copy, PartialEq, Eq, Structural)]
pub enum StoreKey {
    /// The SSID, stored under `wifi_ssid`.
    Ssid,
    /// The password, stored under `wifi_pwd`.
    Password,
}

/// The name under which the store keeps the value of `key`.
pub open spec fn store_key_name(key: StoreKey) -> Seq<char> {
    match key {
        StoreKey::Ssid => "wifi_ssid"@,
        StoreKey::Password => "wifi_pwd"@,
    }
}

/// The size of the buffer into which the store reads the value of `key`.
pub open spec fn store_key_read_len(key: StoreKey) -> nat {
    match key {
        StoreKey::Ssid => 32,
        StoreKey::Password => 64,
    }
}

impl StoreKey {
    /// The name under which the store keeps this value.
    pub fn name(&self) -> (r: &'static str)
        ensures
            r@ == store_key_name(*self),
    {
        match self {
            StoreKey::Ssid => "wifi_ssid",
            StoreKey::Password => "wifi_pwd",
        }
    }

    /// The size of the buffer into which the store reads this value.
    pub fn read_len(&self) -> (r: usize)
        ensures
            r == store_key_read_len(*self),
    {
        match self {
            StoreKey::Ssid => 32,
            StoreKey::Password => 64,
        }
    }
}

/// A piece of outside work that the manager asks for.
pub enum LinkStep {
    /// Ask the driver whether the station is connected.
    QueryLink,
    /// Disconnect the station.
    Disconnect,
    /// Write the client configuration with this SSID and password.
    Configure { ssid: heapless::String<32>, password: heapless::String<64> },
    /// Start the driver.
    Start,
    /// Connect to the configured network.
    Connect,
    /// Wait until the network interface is up.
    WaitNetifUp,
    /// Write `value` under `key` in the credential store.
    Store { key: StoreKey, value: String },
    /// Read the value under `key` from the credential store.
    Load { key: StoreKey },
}

/// What became of the step that the manager asked for.
pub enum WifiEvent {
    /// The step succeeded.
    Done,
    /// The link query succeeded: whether the station is connected.
    LinkUp(bool),
    /// The read succeeded: the stored value, if any.
    Loaded(Option<String>),
    /// The step failed with this driver error code.
    Failed(i32),
}

/// Why a join failed.
#[derive(Debug, Clone, Copy, PartialEq, Eq)]
pub enum WifiError {
    /// The SSID takes more than 32 bytes.
    SsidTooLong,
    /// The password takes more than 64 bytes.
    PasswordTooLong,
    /// A driver or store step failed with this error code.
    Esp(i32),
}

/// What the manager answers.
pub enum WifiAction {
    /// Perform this step and report with `resume`.
    Perform(LinkStep),
    /// The operation is over, with this outcome.
    Finished(Result<(), WifiError>),
}

/// A join in progress, before the configuration is written.
struct Session {
    ssid_buf: heapless::String<32>,
    password_buf: heapless::String<64>,
    ssid: String,
    password: String,
}

impl Session {
    #[verifier::type_invariant]
    spec fn buffers_match(self) -> bool {
        &&& ssid_buffer_text(self.ssid_buf) == self.ssid@
        &&& password_buffer_text(self.password_buf) == self.password@
    }
}

enum Stage {
    Idle,
    LoadingSsid,
    LoadingPassword { ssid: String },
    QueryingLink(Session),
    Disconnecting(Session),
    Configuring { ssid: String, password: String },
    Starting { ssid: String, password: String },
    Connecting { ssid: String, password: String },
    WaitingNetif { ssid: String, password: String },
    StoringSsid { password: String },
    StoringPassword,
}

/// The Wi-Fi station manager.
pub struct WifiManager {
    connected: bool,
    stage: Stage,
}

// ---------------------------------------------------------------------------
// The model

/// Where the manager stands, with credentials as characters.
pub enum StageView {
    Idle,
    LoadingSsid,
    LoadingPassword { ssid: Seq<char> },
    QueryingLink { ssid: Seq<char>, password: Seq<char> },
    Disconnecting { ssid: Seq<char>, password: Seq<char> },
    Configuring { ssid: Seq<char>, password: Seq<char> },
    Starting { ssid: Seq<char>, password: Seq<char> },
    Connecting { ssid: Seq<char>, password: Seq<char> },
    WaitingNetif { ssid: Seq<char>, password: Seq<char> },
    StoringSsid { password: Seq<char> },
    StoringPassword,
}

/// The manager as a value.
pub struct WifiModel {
    pub connected: bool,
    pub stage: StageView,
}

/// A step as a value.
pub enum StepView {
    QueryLink,
    Disconnect,
    Configure { ssid: Seq<char>, password: Seq<char> },
    Start,
    Connect,
    WaitNetifUp,
    Store { key: StoreKey, value: Seq<char> },
    Load { key: StoreKey },
}

/// An event as a value.
pub enum EventView {
    Done,
    LinkUp(bool),
    Loaded(Option<Seq<char>>),
    Failed(i32),
}

/// An answer as a value.
pub enum ActionView {
    Perform(StepView),
    Finished(Result<(), WifiError>),
}

impl View for LinkStep {
    type V = StepView;

    open spec fn view(&self) -> StepView {
        match self {
            LinkStep::QueryLink => StepView::QueryLink,
            LinkStep::Disconnect => StepView::Disconnect,
            LinkStep::Configure { ssid, password } => StepView::Configure {
                ssid: ssid_buffer_text(*ssid),
                password: password_buffer_text(*password),
            },
            LinkStep::Start => StepView::Start,
            LinkStep::Connect => StepView::Connect,
            LinkStep::WaitNetifUp => StepView::WaitNetifUp,
            LinkStep::Store { key, value } => StepView::Store { key: *key, value: value@ },
            LinkStep::Load { key } => StepView::Load { key: *key },
        }
    }
}

impl View for WifiEvent {
    type V = EventView;

    open spec fn view(&self) -> EventView {
        match self {
            WifiEvent::Done => EventView::Done,
            WifiEvent::LinkUp(b) => EventView::LinkUp(*b),
            WifiEvent::Loaded(v) => EventView::Loaded(
                match v {
                    Some(s) => Some(s@),
                    None => None,
                },
            ),
            WifiEvent::Failed(c) => EventView::Failed(*c),
        }
    }
}

impl View for WifiAction {
    type V = ActionView;

    open spec fn view(&self) -> ActionView {
        match self {
            WifiAction::Perform(s) => ActionView::Perform(s@),
            WifiAction::Finished(r) => ActionView::Finished(*r),
        }
    }
}

impl View for WifiManager {
    type V = WifiModel;

    closed spec fn view(&self) -> WifiModel {
        WifiModel {
            connected: self.connected,
            stage: match self.stage {
                Stage::Idle => StageView::Idle,
                Stage::LoadingSsid => StageView::LoadingSsid,
                Stage::LoadingPassword { ssid } => StageView::LoadingPassword { ssid: ssid@ },
                Stage::QueryingLink(s) => StageView::QueryingLink {
                    ssid: s.ssid@,
                    password: s.password@,
                },
                Stage::Disconnecting(s) => StageView::Disconnecting {
                    ssid: s.ssid@,
                    password: s.password@,
                },
                Stage::Configuring { ssid, password } => StageView::Configuring {
                    ssid: ssid@,
                    password: password@,
                },
                Stage::Starting { ssid, password } => StageView::Starting {
                    ssid: ssid@,
                    password: password@,
                },
                Stage::Connecting { ssid, password } => StageView::Connecting {
                    ssid: ssid@,
                    password: password@,
                },
                Stage::WaitingNetif { ssid, password } => StageView::WaitingNetif {
                    ssid: ssid@,
                    password: password@,
                },
                Stage::StoringSsid { password } => StageView::StoringSsid { password: password@ },
                Stage::StoringPassword => StageView::StoringPassword,
            },
        }
    }
}

/// The manager with nothing in progress.
pub open spec fn idle_with(connected: bool) -> WifiModel {
    WifiModel { connected, stage: StageView::Idle }
}

/// Whether `event` is a possible report on the step that `m` waits for.
pub open spec fn expects(m: WifiModel, event: EventView) -> bool {
    match m.stage {
        StageView::Idle => false,
        StageView::LoadingSsid | StageView::LoadingPassword { .. } => event is Loaded
            || event is Failed,
        StageView::QueryingLink { .. } => event is LinkUp || event is Failed,
        _ => event is Done || event is Failed,
    }
}

/// A join with these credentials, from a manager with nothing in progress.
pub open spec fn join(connected: bool, ssid: Seq<char>, password: Seq<char>) -> (
    WifiModel,
    ActionView,
) {
    if utf8_len(ssid) > 32 {
        (idle_with(connected), ActionView::Finished(Err(WifiError::SsidTooLong)))
    } else if utf8_len(password) > 64 {
        (idle_with(connected), ActionView::Finished(Err(WifiError::PasswordTooLong)))
    } else {
        (
            WifiModel { connected, stage: StageView::QueryingLink { ssid, password } },
            ActionView::Perform(StepView::QueryLink),
        )
    }
}

/// A join from saved credentials, from a manager with nothing in progress.
pub open spec fn join_saved(connected: bool) -> (WifiModel, ActionView) {
    (
        WifiModel { connected, stage: StageView::LoadingSsid },
        ActionView::Perform(StepView::Load { key: StoreKey::Ssid }),
    )
}

/// The end of an operation without error and without a join.
pub open spec fn nothing_saved(connected: bool) -> (WifiModel, ActionView) {
    (idle_with(connected), ActionView::Finished(Ok(())))
}

/// What the manager does on `event` in state `m`.
pub open spec fn advance(m: WifiModel, event: EventView) -> (WifiModel, ActionView) {
    let c = m.connected;
    match event {
        EventView::Failed(code) => match m.stage {
            StageView::LoadingSsid | StageView::LoadingPassword { .. } => nothing_saved(c),
            _ => (idle_with(c), ActionView::Finished(Err(WifiError::Esp(code)))),
        },
        EventView::Loaded(value) => match m.stage {
            StageView::LoadingSsid => match value {
                Some(ssid) => (
                    WifiModel { connected: c, stage: StageView::LoadingPassword { ssid } },
                    ActionView::Perform(StepView::Load { key: StoreKey::Password }),
                ),
                None => nothing_saved(c),
            },
            StageView::LoadingPassword { ssid } => match value {
                Some(password) => if utf8_len(ssid) <= 32 && utf8_len(password) <= 64 {
                    join(c, ssid, password)
                } else {
                    nothing_saved(c)
                },
                None => nothing_saved(c),
            },
            _ => (m, ActionView::Finished(Ok(()))),
        },
        EventView::LinkUp(up) => match m.stage {
            StageView::QueryingLink { ssid, password } => if up {
                (
                    WifiModel { connected: c, stage: StageView::Disconnecting { ssid, password } },
                    ActionView::Perform(StepView::Disconnect),
                )
            } else {
                (
                    WifiModel { connected: c, stage: StageView::Configuring { ssid, password } },
                    ActionView::Perform(StepView::Configure { ssid, password }),
                )
            },
            _ => (m, ActionView::Finished(Ok(()))),
        },
        EventView::Done => match m.stage {
            StageView::Disconnecting { ssid, password } => (
                WifiModel { connected: c, stage: StageView::Configuring { ssid, password } },
                ActionView::Perform(StepView::Configure { ssid, password }),
            ),
            StageView::Configuring { ssid, password } => (
                WifiModel { connected: c, stage: StageView::Starting { ssid, password } },
                ActionView::Perform(StepView::Start),
            ),
            StageView::Starting { ssid, password } => (
                WifiModel { connected: c, stage: StageView::Connecting { ssid, password } },
                ActionView::Perform(StepView::Connect),
            ),
            StageView::Connecting { ssid, password } => (
                WifiModel { connected: c, stage: StageView::WaitingNetif { ssid, password } },
                ActionView::Perform(StepView::WaitNetifUp),
            ),
            StageView::WaitingNetif { ssid, password } => (
                WifiModel { connected: c, stage: StageView::StoringSsid { password } },
                ActionView::Perform(StepView::Store { key: StoreKey::Ssid, value: ssid }),
            ),
            StageView::StoringSsid { password } => (
                WifiModel { connected: c, stage: StageView::StoringPassword },
                ActionView::Perform(StepView::Store { key: StoreKey::Password, value: password }),
            ),
            StageView::StoringPassword => (idle_with(true), ActionView::Finished(Ok(()))),
            _ => (m, ActionView::Finished(Ok(()))),
        },
    }
}

impl WifiManager {
    /// A manager whose station is not connected, with nothing in progress.
    pub fn new() -> (r: Self)
        ensures
            r@ == idle_with(false),
    {
        WifiManager { connected: false, stage: Stage::Idle }
    }

    /// Whether the last join succeeded.
    pub fn is_connected(&self) -> (r: bool)
        ensures
            r == self@.connected,
    {
        self.connected
    }

    /// Whether nothing is in progress.
    pub fn is_idle(&self) -> (r: bool)
        ensures
            r == (self@.stage is Idle),
    {
        match self.stage {
            Stage::Idle => true,
            _ => false,
        }
    }

    /// Whether `event` is a possible report on the step that the manager waits for.
    pub fn expects_event(&self, event: &WifiEvent) -> (r: bool)
        ensures
            r == expects(self@, event@),
    {
        match (&self.stage, event) {
            (Stage::Idle, _) => false,
            (Stage::LoadingSsid, WifiEvent::Loaded(_)) => true,
            (Stage::LoadingPassword { .. }, WifiEvent::Loaded(_)) => true,
            (Stage::QueryingLink(_), WifiEvent::LinkUp(_)) => true,
            (Stage::LoadingSsid, _) | (Stage::LoadingPassword { .. }, _) | (
                Stage::QueryingLink(_),
                _,
            ) => event.is_failure(),
            (_, WifiEvent::Done) => true,
            (_, _) => event.is_failure(),
        }
    }

    /// Starts a join of the network `ssid` with password `pwd`.
    pub fn connect(&mut self, ssid: &str, pwd: &str) -> (r: WifiAction)
        requires
            old(self)@.stage is Idle,
        ensures
            (final(self)@, r@) == join(old(self)@.connected, ssid@, pwd@),
    {
        self.begin_join(ssid.to_string(), pwd.to_string())
    }

    /// Starts a join with the credentials that the store holds.
    pub fn try_connect_saved(&mut self) -> (r: WifiAction)
        requires
            old(self)@.stage is Idle,
        ensures
            (final(self)@, r@) == join_saved(old(self)@.connected),
    {
        self.stage = Stage::LoadingSsid;
        WifiAction::Perform(LinkStep::Load { key: StoreKey::Ssid })
    }

    fn begin_join(&mut self, ssid: String, password: String) -> (r: WifiAction)
        requires
            old(self)@.stage is Idle,
        ensures
            (final(self)@, r@) == join(old(self)@.connected, ssid@, password@),
    {
        let ssid_buf = match bounded_ssid(ssid.as_str()) {
            Ok(b) => b,
            Err(_) => {
                return WifiAction::Finished(Err(WifiError::SsidTooLong));
            },
        };
        let password_buf = match bounded_password(password.as_str()) {
            Ok(b) => b,
            Err(_) => {
                return WifiAction::Finished(Err(WifiError::PasswordTooLong));
            },
        };
        self.stage = Stage::QueryingLink(Session { ssid_buf, password_buf, ssid, password });
        WifiAction::Perform(LinkStep::QueryLink)
    }

    /// Takes the report on the last step and answers with the next one.
    pub fn resume(&mut self, event: WifiEvent) -> (r: WifiAction)
        requires
            expects(old(self)@, event@),
        ensures
            (final(self)@, r@) == advance(old(self)@, event@),
    {
        let mut stage = Stage::Idle;
        std::mem::swap(&mut stage, &mut self.stage);
        match event {
            WifiEvent::Failed(code) => match stage {
                Stage::LoadingSsid | Stage::LoadingPassword { .. } => WifiAction::Finished(Ok(())),
                _ => WifiAction::Finished(Err(WifiError::Esp(code))),
            },
            WifiEvent::Loaded(value) => match stage {
                Stage::LoadingSsid => match value {
                    Some(ssid) => {
                        self.stage = Stage::LoadingPassword { ssid };
                        WifiAction::Perform(LinkStep::Load { key: StoreKey::Password })
                    },
                    None => WifiAction::Finished(Ok(())),
                },
                Stage::LoadingPassword { ssid } => match value {
                    Some(password) => {
                        if bounded_ssid(ssid.as_str()).is_err() || bounded_password(
                            password.as_str(),
                        ).is_err() {
                            WifiAction::Finished(Ok(()))
                        } else {
                            self.begin_join(ssid, password)
                        }
                    },
                    None => WifiAction::Finished(Ok(())),
                },
                _ => WifiAction::Finished(Ok(())),
            },
            WifiEvent::LinkUp(up) => match stage {
                Stage::QueryingLink(session) => {
                    if up {
                        self.stage = Stage::Disconnecting(session);
                        WifiAction::Perform(LinkStep::Disconnect)
                    } else {
                        self.configure(session)
                    }
                },
                _ => WifiAction::Finished(Ok(())),
            },
            WifiEvent::Done => match stage {
                Stage::Disconnecting(session) => self.configure(session),
                Stage::Configuring { ssid, password } => {
                    self.stage = Stage::Starting { ssid, password };
                    WifiAction::Perform(LinkStep::Start)
                },
                Stage::Starting { ssid, password } => {
                    self.stage = Stage::Connecting { ssid, password };
                    WifiAction::Perform(LinkStep::Connect)
                },
                Stage::Connecting { ssid, password } => {
                    self.stage = Stage::WaitingNetif { ssid, password };
                    WifiAction::Perform(LinkStep::WaitNetifUp)
                },
                Stage::WaitingNetif { ssid, password } => {
                    self.stage = Stage::StoringSsid { password };
                    WifiAction::Perform(LinkStep::Store { key: StoreKey::Ssid, value: ssid })
                },
                Stage::StoringSsid { password } => {
                    self.stage = Stage::StoringPassword;
                    WifiAction::Perform(LinkStep::Store { key: StoreKey::Password, value: password })
                },
                Stage::StoringPassword => {
                    self.connected = true;
                    WifiAction::Finished(Ok(()))
                },
                _ => WifiAction::Finished(Ok(())),
            },
        }
    }

    fn configure(&mut self, session: Session) -> (r: WifiAction)
        requires
            old(self)@.stage is Idle,
        ensures
            final(self)@ == (WifiModel {
                connected: old(self)@.connected,
                stage: StageView::Configuring { ssid: session.ssid@, password: session.password@ },
            }),
            r@ == ActionView::Perform(
                StepView::Configure { ssid: session.ssid@, password: session.password@ },
            ),
    {
        proof {
            use_type_invariant(&session);
        }
        let Session { ssid_buf, password_buf, ssid, password } = session;
        self.stage = Stage::Configuring { ssid, password };
        WifiAction::Perform(LinkStep::Configure { ssid: ssid_buf, password: password_buf })
    }
}

impl WifiEvent {
    /// Whether this reports a failed step.
    pub fn is_failure(&self) -> (r: bool)
        ensures
            r == (self@ is Failed),
    {
        match self {
            WifiEvent::Failed(_) => true,
            _ => false,
        }
    }
}

} // verus!
