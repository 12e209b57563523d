//! What holds of whole runs of the Wi-Fi manager.
use vstd::prelude::*;
use crate::buffers::utf8_len;
use crate::wifi::{
    advance, expects, idle_with, join, join_saved, ActionView, EventView, StageView, StepView,
    StoreKey, WifiError, WifiModel,
};

verus! {

/// The state and the answers after feeding `events`, one by one, to `m`.
pub open spec fn run(m: WifiModel, events: Seq<EventView>) -> (WifiModel, Seq<ActionView>)
    decreases events.len(),
{
    if events.len() == 0 {
        (m, Seq::empty())
    } else {
        let (next, answer) = advance(m, events[0]);
        let (last, answers) = run(next, events.drop_first());
        (last, seq![answer] + answers)
    }
}

/// The outside work of a join after the link query, in order: a disconnect when
/// the link was up, then configuring, starting, connecting, waiting for the
/// interface, and storing the SSID and then the password.
pub open spec fn join_steps(up: bool, ssid: Seq<char>, password: Seq<char>) -> Seq<StepView> {
    (if up { seq![StepView::Disconnect] } else { Seq::empty() }) + seq![
        StepView::Configure { ssid, password },
        StepView::Start,
        StepView::Connect,
        StepView::WaitNetifUp,
        StepView::Store { key: StoreKey::Ssid, value: ssid },
        StepView::Store { key: StoreKey::Password, value: password },
    ]
}

/// The reports of a join in which every step succeeds.
pub open spec fn success_events(up: bool) -> Seq<EventView> {
    seq![EventView::LinkUp(up)] + Seq::new(
        if up { 7 } else { 6 },
        |i: int| EventView::Done,
    )
}

/// Asking for each of `steps` in turn.
pub open spec fn performs(steps: Seq<StepView>) -> Seq<ActionView> {
    steps.map_values(|s: StepView| ActionView::Perform(s))
}

proof fn run_cons(m: WifiModel, e: EventView, rest: Seq<EventView>)
    ensures
        run(m, seq![e] + rest) == ({
            let (next, answer) = advance(m, e);
            let (last, answers) = run(next, rest);
            (last, seq![answer] + answers)
        }),
{
    let events = seq![e] + rest;
    assert(events[0] == e);
    assert(events.drop_first() =~= rest);
}

/// Six successful reports from the configuring stage end the join connected.
proof fn finish_from_configuring(connected: bool, ssid: Seq<char>, password: Seq<char>)
    ensures
        run(
            WifiModel { connected, stage: StageView::Configuring { ssid, password } },
            Seq::new(6, |i: int| EventView::Done),
        ) == (
            idle_with(true),
            seq![
                ActionView::Perform(StepView::Start),
                ActionView::Perform(StepView::Connect),
                ActionView::Perform(StepView::WaitNetifUp),
                ActionView::Perform(StepView::Store { key: StoreKey::Ssid, value: ssid }),
                ActionView::Perform(StepView::Store { key: StoreKey::Password, value: password }),
                ActionView::Finished(Ok(())),
            ],
        ),
{
    let d = EventView::Done;
    let m1 = WifiModel { connected, stage: StageView::Configuring { ssid, password } };
    let m2 = WifiModel { connected, stage: StageView::Starting { ssid, password } };
    let m3 = WifiModel { connected, stage: StageView::Connecting { ssid, password } };
    let m4 = WifiModel { connected, stage: StageView::WaitingNetif { ssid, password } };
    let m5 = WifiModel { connected, stage: StageView::StoringSsid { password } };
    let m6 = WifiModel { connected, stage: StageView::StoringPassword };
    let e0: Seq<EventView> = Seq::empty();
    assert(run(idle_with(true), e0) == (idle_with(true), Seq::<ActionView>::empty()));
    run_cons(m6, d, e0);
    run_cons(m5, d, seq![d] + e0);
    run_cons(m4, d, seq![d] + (seq![d] + e0));
    run_cons(m3, d, seq![d] + (seq![d] + (seq![d] + e0)));
    run_cons(m2, d, seq![d] + (seq![d] + (seq![d] + (seq![d] + e0))));
    run_cons(m1, d, seq![d] + (seq![d] + (seq![d] + (seq![d] + (seq![d] + e0)))));
    assert(Seq::new(6, |i: int| EventView::Done) =~= seq![d] + (seq![d] + (seq![d] + (seq![d] + (seq![d] + (seq![d] + e0))))));
    assert(seq![ActionView::Perform(StepView::Start)] + (seq![ActionView::Perform(StepView::Connect)] + (seq![ActionView::Perform(StepView::WaitNetifUp)] + (seq![ActionView::Perform(StepView::Store { key: StoreKey::Ssid, value: ssid })] + (seq![ActionView::Perform(StepView::Store { key: StoreKey::Password, value: password })] + (seq![ActionView::Finished(Ok(()))] + Seq::<ActionView>::empty())))))
        =~= seq![
                ActionView::Perform(StepView::Start),
                ActionView::Perform(StepView::Connect),
                ActionView::Perform(StepView::WaitNetifUp),
                ActionView::Perform(StepView::Store { key: StoreKey::Ssid, value: ssid }),
                ActionView::Perform(StepView::Store { key: StoreKey::Password, value: password }),
                ActionView::Finished(Ok(())),
            ]);
}

/// A join with credentials that fit, in which every step succeeds, asks for
/// the link state and then for exactly the work of `join_steps`, ends without
/// error, and leaves the station connected.
pub proof fn successful_join(connected: bool, ssid: Seq<char>, password: Seq<char>, up: bool)
    requires
        utf8_len(ssid) <= 32,
        utf8_len(password) <= 64,
    ensures
        join(connected, ssid, password).1 == ActionView::Perform(StepView::QueryLink),
        run(join(connected, ssid, password).0, success_events(up)) == (
            idle_with(true),
            performs(join_steps(up, ssid, password)) + seq![ActionView::Finished(Ok(()))],
        ),
{
    let d = EventView::Done;
    let six = Seq::new(6, |i: int| EventView::Done);
    let m0 = join(connected, ssid, password).0;
    let cfg = WifiModel { connected, stage: StageView::Configuring { ssid, password } };
    finish_from_configuring(connected, ssid, password);
    let tail = run(cfg, six).1;
    let configure = ActionView::Perform(StepView::Configure { ssid, password });
    if up {
        let disc = WifiModel { connected, stage: StageView::Disconnecting { ssid, password } };
        run_cons(disc, d, six);
        run_cons(m0, EventView::LinkUp(true), seq![d] + six);
        assert(success_events(up) =~= seq![EventView::LinkUp(true)] + (seq![d] + six));
        assert(performs(join_steps(up, ssid, password)) + seq![ActionView::Finished(Ok(()))]
            =~= seq![ActionView::Perform(StepView::Disconnect)] + (seq![configure] + tail));
    } else {
        run_cons(m0, EventView::LinkUp(false), six);
        assert(success_events(up) =~= seq![EventView::LinkUp(false)] + six);
        assert(performs(join_steps(up, ssid, password)) + seq![ActionView::Finished(Ok(()))]
            =~= seq![configure] + tail);
    }
}

/// Every answer keeps the connected flag, except the one to the report that the
/// password was stored, which ends the join without error and sets it. An
/// answer that ends the operation leaves nothing in progress, and a failed
/// step always ends it.
pub proof fn connected_only_after_storing(m: WifiModel, event: EventView)
    requires
        expects(m, event),
    ensures
        ({
            let (next, answer) = advance(m, event);
            &&& next.connected != m.connected ==> {
                &&& m.stage is StoringPassword
                &&& event is Done
                &&& next.connected
                &&& answer == ActionView::Finished(Ok(()))
            }
            &&& answer is Finished ==> next.stage is Idle
            &&& answer matches ActionView::Finished(Err(_)) ==> next.connected == m.connected
            &&& event is Failed ==> answer is Finished
        }),
{
}

/// A join whose SSID takes more than 32 bytes is refused with `SsidTooLong`,
/// one whose SSID fits but whose password takes more than 64 bytes with
/// `PasswordTooLong`; either way no step is asked for and nothing changes.
pub proof fn refused_credentials(connected: bool, ssid: Seq<char>, password: Seq<char>)
    ensures
        utf8_len(ssid) > 32 ==> join(connected, ssid, password) == (
            idle_with(connected),
            ActionView::Finished(Err(WifiError::SsidTooLong)),
        ),
        utf8_len(ssid) <= 32 && utf8_len(password) > 64 ==> join(connected, ssid, password) == (
            idle_with(connected),
            ActionView::Finished(Err(WifiError::PasswordTooLong)),
        ),
{
}

/// A join from saved credentials that reads back an SSID and a password that
/// fit joins with exactly those: after asking for the SSID and the password
/// under the keys that a join stores them under, it does the same work as a
/// join with those credentials, stores them again, and ends connected.
pub proof fn saved_credentials_rejoin(
    connected: bool,
    ssid: Seq<char>,
    password: Seq<char>,
    up: bool,
)
    requires
        utf8_len(ssid) <= 32,
        utf8_len(password) <= 64,
    ensures
        join_saved(connected).1 == ActionView::Perform(StepView::Load { key: StoreKey::Ssid }),
        run(
            join_saved(connected).0,
            seq![EventView::Loaded(Some(ssid)), EventView::Loaded(Some(password))]
                + success_events(up),
        ) == (
            idle_with(true),
            seq![
                ActionView::Perform(StepView::Load { key: StoreKey::Password }),
                ActionView::Perform(StepView::QueryLink),
            ] + performs(join_steps(up, ssid, password)) + seq![ActionView::Finished(Ok(()))],
        ),
{
    let m0 = join_saved(connected).0;
    let m1 = WifiModel { connected, stage: StageView::LoadingPassword { ssid } };
    let m2 = join(connected, ssid, password).0;
    let ev = success_events(up);
    successful_join(connected, ssid, password, up);
    run_cons(m1, EventView::Loaded(Some(password)), ev);
    run_cons(m0, EventView::Loaded(Some(ssid)), seq![EventView::Loaded(Some(password))] + ev);
    assert(seq![EventView::Loaded(Some(ssid)), EventView::Loaded(Some(password))] + ev
        =~= seq![EventView::Loaded(Some(ssid))] + (seq![EventView::Loaded(Some(password))] + ev));
    let tail = performs(join_steps(up, ssid, password)) + seq![ActionView::Finished(Ok(()))];
    assert(seq![
        ActionView::Perform(StepView::Load { key: StoreKey::Password }),
        ActionView::Perform(StepView::QueryLink),
    ] + tail =~= seq![ActionView::Perform(StepView::Load { key: StoreKey::Password })]
        + (seq![ActionView::Perform(StepView::QueryLink)] + tail));
}

/// A join from saved credentials ends without error and without joining, the
/// flag unchanged, when the SSID is missing or unreadable, when the password
/// is, or when either does not fit its buffer.
pub proof fn nothing_saved_nothing_joined(
    connected: bool,
    ssid: Seq<char>,
    password: Seq<char>,
    code: i32,
)
    ensures
        run(join_saved(connected).0, seq![EventView::Loaded(None)]) == (
            idle_with(connected),
            seq![ActionView::Finished(Ok(()))],
        ),
        run(join_saved(connected).0, seq![EventView::Failed(code)]) == (
            idle_with(connected),
            seq![ActionView::Finished(Ok(()))],
        ),
        run(join_saved(connected).0, seq![EventView::Loaded(Some(ssid)), EventView::Loaded(None)])
            == (
            idle_with(connected),
            seq![
                ActionView::Perform(StepView::Load { key: StoreKey::Password }),
                ActionView::Finished(Ok(())),
            ],
        ),
        run(
            join_saved(connected).0,
            seq![EventView::Loaded(Some(ssid)), EventView::Failed(code)],
        ) == (
            idle_with(connected),
            seq![
                ActionView::Perform(StepView::Load { key: StoreKey::Password }),
                ActionView::Finished(Ok(())),
            ],
        ),
        utf8_len(ssid) > 32 || utf8_len(password) > 64 ==> run(
            join_saved(connected).0,
            seq![EventView::Loaded(Some(ssid)), EventView::Loaded(Some(password))],
        ) == (
            idle_with(connected),
            seq![
                ActionView::Perform(StepView::Load { key: StoreKey::Password }),
                ActionView::Finished(Ok(())),
            ],
        ),
{
    let m0 = join_saved(connected).0;
    let m1 = WifiModel { connected, stage: StageView::LoadingPassword { ssid } };
    let e0: Seq<EventView> = Seq::empty();
    let done = seq![ActionView::Finished(Ok(()))];
    let load_pwd = ActionView::Perform(StepView::Load { key: StoreKey::Password });
    assert(run(idle_with(connected), e0) == (idle_with(connected), Seq::<ActionView>::empty()));
    run_cons(m0, EventView::Loaded(None), e0);
    assert(seq![EventView::Loaded(None)] + e0 =~= seq![EventView::Loaded(None)]);
    assert(seq![ActionView::Finished(Ok(()))] + Seq::<ActionView>::empty() =~= done);
    run_cons(m0, EventView::Failed(code), e0);
    assert(seq![EventView::Failed(code)] + e0 =~= seq![EventView::Failed(code)]);
    let first = EventView::Loaded(Some(ssid));
    let seconds = seq![
        EventView::Loaded(None),
        EventView::Failed(code),
        EventView::Loaded(Some(password)),
    ];
    assert forall|i: int| 0 <= i < 3 implies run(m0, seq![first, #[trigger] seconds[i]]) == ({
        let (last, answers) = run(advance(m1, seconds[i]).0, e0);
        (last, seq![load_pwd, advance(m1, seconds[i]).1] + answers)
    }) by {
        run_cons(m1, seconds[i], e0);
        assert(seq![seconds[i]] + e0 =~= seq![seconds[i]]);
        run_cons(m0, first, seq![seconds[i]]);
        assert(seq![first] + seq![seconds[i]] =~= seq![first, seconds[i]]);
        assert(seq![load_pwd] + (seq![advance(m1, seconds[i]).1] + run(advance(m1, seconds[i]).0, e0).1)
            =~= seq![load_pwd, advance(m1, seconds[i]).1] + run(advance(m1, seconds[i]).0, e0).1);
    }
    assert(run(m0, seq![first, seconds[0]]) == run(m0, seq![first, EventView::Loaded(None)]));
    assert(run(m0, seq![first, seconds[1]]) == run(m0, seq![first, EventView::Failed(code)]));
    assert(run(m0, seq![first, seconds[2]]) == run(m0, seq![first, EventView::Loaded(Some(password))]));
    assert(seq![load_pwd] + done =~= seq![load_pwd, ActionView::Finished(Ok(()))]);
}

/// A call on the manager: `connect`, `try_connect_saved`, or `resume` with a report.
pub enum Call {
    Connect { ssid: Seq<char>, password: Seq<char> },
    ConnectSaved,
    Resume(EventView),
}

/// Whether `call` may be made on `m`: the two starts on a manager with
/// nothing in progress, `resume` with a report on the step it waits for.
pub open spec fn call_allowed(m: WifiModel, call: Call) -> bool {
    match call {
        Call::Connect { .. } | Call::ConnectSaved => m.stage is Idle,
        Call::Resume(event) => expects(m, event),
    }
}

/// The state and the answer after `call` on `m`, as the contracts of
/// `connect`, `try_connect_saved` and `resume` give them.
pub open spec fn apply(m: WifiModel, call: Call) -> (WifiModel, ActionView) {
    match call {
        Call::Connect { ssid, password } => join(m.connected, ssid, password),
        Call::ConnectSaved => join_saved(m.connected),
        Call::Resume(event) => advance(m, event),
    }
}

/// Whether `call` on `m` is the report that a join stored the password, the
/// last step of a join.
pub open spec fn completes_join(m: WifiModel, call: Call) -> bool {
    m.stage is StoringPassword && call == Call::Resume(EventView::Done)
}

/// Whether every call of `calls`, made in turn from `m`, is allowed.
pub open spec fn calls_allowed(m: WifiModel, calls: Seq<Call>) -> bool
    decreases calls.len(),
{
    calls.len() == 0 || (call_allowed(m, calls[0]) && calls_allowed(
        apply(m, calls[0]).0,
        calls.drop_first(),
    ))
}

/// The manager after `calls`, made in turn from `m`.
pub open spec fn after_calls(m: WifiModel, calls: Seq<Call>) -> WifiModel
    decreases calls.len(),
{
    if calls.len() == 0 {
        m
    } else {
        after_calls(apply(m, calls[0]).0, calls.drop_first())
    }
}

/// Whether some join among `calls`, made in turn from `m`, got to its end.
pub open spec fn some_join_completed(m: WifiModel, calls: Seq<Call>) -> bool
    decreases calls.len(),
{
    calls.len() > 0 && (completes_join(m, calls[0]) || some_join_completed(
        apply(m, calls[0]).0,
        calls.drop_first(),
    ))
}

/// A join that gets to its end ends without error.
pub proof fn completed_join_ends_ok(m: WifiModel, call: Call)
    requires
        call_allowed(m, call),
        completes_join(m, call),
    ensures
        apply(m, call) == (idle_with(true), ActionView::Finished(Ok(()))),
{
}

/// Over any sequence of allowed calls the station ends connected exactly when
/// it was connected before or some join among the calls got to its end (and
/// so ended without error); a connected station stays connected, whatever
/// fails later.
pub proof fn connected_over_calls(m: WifiModel, calls: Seq<Call>)
    requires
        calls_allowed(m, calls),
    ensures
        after_calls(m, calls).connected == (m.connected || some_join_completed(m, calls)),
        m.connected ==> after_calls(m, calls).connected,
    decreases calls.len(),
{
    if calls.len() > 0 {
        let call = calls[0];
        let next = apply(m, call).0;
        assert(next.connected == (m.connected || completes_join(m, call))) by {
            match call {
                Call::Resume(event) => connected_only_after_storing(m, event),
                _ => {},
            }
        }
        connected_over_calls(next, calls.drop_first());
    }
}

/// From a new manager (`WifiManager::new` gives `idle_with(false)`), the station is connected after a sequence of allowed
/// calls exactly when some join among them got to its end.
pub proof fn connected_iff_some_join_completed(calls: Seq<Call>)
    requires
        calls_allowed(idle_with(false), calls),
    ensures
        after_calls(idle_with(false), calls).connected == some_join_completed(
            idle_with(false),
            calls,
        ),
{
    connected_over_calls(idle_with(false), calls);
}

/// A step of a join that fails ends the join with the driver's error code,
/// whichever step it is: the link query, the disconnect, writing the
/// configuration, starting, connecting, waiting for the interface, or storing
/// the SSID or the password. Nothing is in progress afterwards and the
/// connected flag is as before.
pub proof fn failed_join_step_reports_code(m: WifiModel, code: i32)
    requires
        m.stage is QueryingLink || m.stage is Disconnecting || m.stage is Configuring
            || m.stage is Starting || m.stage is Connecting || m.stage is WaitingNetif
            || m.stage is StoringSsid || m.stage is StoringPassword,
    ensures
        advance(m, EventView::Failed(code)) == (
            WifiModel { connected: m.connected, stage: StageView::Idle },
            ActionView::Finished(Err(WifiError::Esp(code))),
        ),
{
}

} // verus!
