//! The redirect-aware connector as a state machine. The caller owns the
//! transport and the driver: it performs each [`ConnAction`] this module
//! hands out (open a transport, run the transport hook, run the handshake)
//! and feeds the outcome back as a [`ConnEvent`]. The decisions — when to
//! open, when to follow a routing signal, when to refuse a second one —
//! all live here and are verified.
//!
//! The policy encoded: one transport per attempt, the transport hook once
//! per opened transport, one redirect followed at most, a second routing
//! signal in a row turned into a protocol error.

use vstd::prelude::*;

use crate::descriptor::Descriptor;
use crate::descriptor::DescriptorView;
use crate::descriptor::redirect_view;
use crate::error::Error;
use crate::error::ErrorView;
use crate::handle::Handle;
use crate::handle::HandleStatus;

verus! {

/// What the driving loop reports back after performing an action.
#[derive(Debug)]
pub enum ConnEvent {
    /// The requested transport is open (and, where asked, discovery found
    /// the named instance).
    Opened,
    /// The transport could not be opened; `error` says whether dialling or
    /// discovery failed.
    OpenFailed { error: Error },
    /// The transport hook accepted the fresh stream.
    HookOk,
    /// The transport hook rejected the fresh stream.
    HookFailed { error: Error },
    /// The driver handshake completed; the connection is usable.
    HandshakeOk,
    /// The server answered the handshake with a redirect to `host:port`.
    HandshakeRouting { host: String, port: u16 },
    /// The handshake failed for any reason other than a routing signal.
    HandshakeFailed { error: Error },
}

/// Where one connection attempt stands.
#[derive(Debug)]
pub enum ConnState {
    /// Waiting for the transport of this attempt to open.
    Dialing { attempt: u8, desc: Descriptor },
    /// Waiting for the transport hook to run on the fresh stream.
    Tuning { attempt: u8, desc: Descriptor },
    /// Waiting for the driver handshake over the tuned stream.
    Handshaking { attempt: u8, desc: Descriptor },
    /// Terminal: handshaked against `desc`'s address.
    Connected { desc: Descriptor },
    /// Terminal: the attempt is over with `error`.
    Failed { error: Error },
}

/// What the driving loop must do next.
#[derive(Debug)]
pub enum ConnAction {
    /// Open a byte-stream to `desc`'s address; resolve the address by the
    /// named-instance discovery sub-protocol first when `discover` is set.
    Open { desc: Descriptor, discover: bool },
    /// Run the transport hook on the stream just opened.
    ApplyHook,
    /// Run the driver handshake over the stream, with `desc`'s credentials.
    Handshake { desc: Descriptor },
    /// Nothing: the state is terminal, read the outcome with [`finish`].
    Stop,
}

/// Mathematical image of a [`ConnEvent`].
pub ghost enum ConnEventView {
    Opened,
    OpenFailed { error: ErrorView },
    HookOk,
    HookFailed { error: ErrorView },
    HandshakeOk,
    HandshakeRouting { host: Seq<char>, port: u16 },
    HandshakeFailed { error: ErrorView },
}

/// Mathematical image of a [`ConnState`].
pub ghost enum ConnStateView {
    Dialing { attempt: u8, desc: DescriptorView },
    Tuning { attempt: u8, desc: DescriptorView },
    Handshaking { attempt: u8, desc: DescriptorView },
    Connected { desc: DescriptorView },
    Failed { error: ErrorView },
}

/// Mathematical image of a [`ConnAction`].
pub ghost enum ConnActionView {
    Open { desc: DescriptorView, discover: bool },
    ApplyHook,
    Handshake { desc: DescriptorView },
    Stop,
}

impl View for ConnEvent {
    type V = ConnEventView;

    open spec fn view(&self) -> ConnEventView {
        match self {
            ConnEvent::Opened => ConnEventView::Opened,
            ConnEvent::OpenFailed { error } => ConnEventView::OpenFailed { error: error@ },
            ConnEvent::HookOk => ConnEventView::HookOk,
            ConnEvent::HookFailed { error } => ConnEventView::HookFailed { error: error@ },
            ConnEvent::HandshakeOk => ConnEventView::HandshakeOk,
            ConnEvent::HandshakeRouting { host, port } => ConnEventView::HandshakeRouting {
                host: host@,
                port: *port,
            },
            ConnEvent::HandshakeFailed { error } => ConnEventView::HandshakeFailed {
                error: error@,
            },
        }
    }
}

impl View for ConnState {
    type V = ConnStateView;

    open spec fn view(&self) -> ConnStateView {
        match self {
            ConnState::Dialing { attempt, desc } => ConnStateView::Dialing {
                attempt: *attempt,
                desc: desc@,
            },
            ConnState::Tuning { attempt, desc } => ConnStateView::Tuning {
                attempt: *attempt,
                desc: desc@,
            },
            ConnState::Handshaking { attempt, desc } => ConnStateView::Handshaking {
                attempt: *attempt,
                desc: desc@,
            },
            ConnState::Connected { desc } => ConnStateView::Connected { desc: desc@ },
            ConnState::Failed { error } => ConnStateView::Failed { error: error@ },
        }
    }
}

impl View for ConnAction {
    type V = ConnActionView;

    open spec fn view(&self) -> ConnActionView {
        match self {
            ConnAction::Open { desc, discover } => ConnActionView::Open {
                desc: desc@,
                discover: *discover,
            },
            ConnAction::ApplyHook => ConnActionView::ApplyHook,
            ConnAction::Handshake { desc } => ConnActionView::Handshake { desc: desc@ },
            ConnAction::Stop => ConnActionView::Stop,
        }
    }
}

/// The attempt counter only ever reads 1 (original address) or 2 (redirect
/// target).
pub open spec fn wf_state(s: ConnStateView) -> bool {
    match s {
        ConnStateView::Dialing { attempt, .. } => 1 <= attempt <= 2,
        ConnStateView::Tuning { attempt, .. } => 1 <= attempt <= 2,
        ConnStateView::Handshaking { attempt, .. } => 1 <= attempt <= 2,
        ConnStateView::Connected { .. } => true,
        ConnStateView::Failed { .. } => true,
    }
}

/// Which events answer which state: exactly the outcomes of the action the
/// machine asked for last. Terminal states accept nothing.
pub open spec fn accepts(s: ConnStateView, e: ConnEventView) -> bool {
    match s {
        ConnStateView::Dialing { .. } => e is Opened || e is OpenFailed,
        ConnStateView::Tuning { .. } => e is HookOk || e is HookFailed,
        ConnStateView::Handshaking { .. } => e is HandshakeOk || e is HandshakeRouting
            || e is HandshakeFailed,
        ConnStateView::Connected { .. } => false,
        ConnStateView::Failed { .. } => false,
    }
}

/// The text carried by the protocol error that refuses a second redirect.
pub open spec fn repeat_routing_text() -> Seq<char> {
    "handshake redirected more than once"@
}

/// One transition of the connector. An event that its state does not accept
/// — which a driving loop that performs the actions never produces — leaves
/// the state as it is.
pub open spec fn step_spec(s: ConnStateView, e: ConnEventView) -> (ConnStateView, ConnActionView) {
    match (s, e) {
        (ConnStateView::Dialing { attempt, desc }, ConnEventView::Opened) => (
            ConnStateView::Tuning { attempt, desc },
            ConnActionView::ApplyHook,
        ),
        (ConnStateView::Dialing { .. }, ConnEventView::OpenFailed { error }) => (
            ConnStateView::Failed { error },
            ConnActionView::Stop,
        ),
        (ConnStateView::Tuning { attempt, desc }, ConnEventView::HookOk) => (
            ConnStateView::Handshaking { attempt, desc },
            ConnActionView::Handshake { desc },
        ),
        (ConnStateView::Tuning { .. }, ConnEventView::HookFailed { error }) => (
            ConnStateView::Failed { error },
            ConnActionView::Stop,
        ),
        (ConnStateView::Handshaking { desc, .. }, ConnEventView::HandshakeOk) => (
            ConnStateView::Connected { desc },
            ConnActionView::Stop,
        ),
        (
            ConnStateView::Handshaking { attempt, desc },
            ConnEventView::HandshakeRouting { host, port },
        ) => if attempt == 1 {
            (
                ConnStateView::Dialing { attempt: 2, desc: redirect_view(desc, host, port) },
                ConnActionView::Open { desc: redirect_view(desc, host, port), discover: false },
            )
        } else {
            (
                ConnStateView::Failed { error: ErrorView::Protocol(repeat_routing_text()) },
                ConnActionView::Stop,
            )
        },
        (ConnStateView::Handshaking { .. }, ConnEventView::HandshakeFailed { error }) => (
            ConnStateView::Failed { error },
            ConnActionView::Stop,
        ),
        _ => (s, ConnActionView::Stop),
    }
}

/// The state and first action of a fresh connection attempt against `desc`;
/// `discover` asks for named-instance discovery on this first open.
pub open spec fn start_spec(desc: DescriptorView, discover: bool) -> (
    ConnStateView,
    ConnActionView,
) {
    (
        ConnStateView::Dialing { attempt: 1, desc },
        ConnActionView::Open { desc, discover },
    )
}

/// Begin a connection attempt: the caller gets the initial state and the
/// first action, an `Open` of `desc`'s address.
pub fn start_connect(desc: Descriptor, discover: bool) -> (r: (ConnState, ConnAction))
    ensures
        (r.0@, r.1@) == start_spec(desc@, discover),
        wf_state(r.0@),
{
    let d2 = desc.clone();
    (
        ConnState::Dialing { attempt: 1, desc },
        ConnAction::Open { desc: d2, discover },
    )
}

/// Feed the outcome of the last action back into the connector and learn
/// the next state and action.
pub fn step(state: ConnState, event: ConnEvent) -> (r: (ConnState, ConnAction))
    requires
        wf_state(state@),
        accepts(state@, event@),
    ensures
        (r.0@, r.1@) == step_spec(state@, event@),
        wf_state(r.0@),
{
    match (state, event) {
        (ConnState::Dialing { attempt, desc }, ConnEvent::Opened) => (
            ConnState::Tuning { attempt, desc },
            ConnAction::ApplyHook,
        ),
        (ConnState::Dialing { attempt: _, desc: _ }, ConnEvent::OpenFailed { error }) => (
            ConnState::Failed { error },
            ConnAction::Stop,
        ),
        (ConnState::Tuning { attempt, desc }, ConnEvent::HookOk) => {
            let d2 = desc.clone();
            (
                ConnState::Handshaking { attempt, desc },
                ConnAction::Handshake { desc: d2 },
            )
        },
        (ConnState::Tuning { attempt: _, desc: _ }, ConnEvent::HookFailed { error }) => (
            ConnState::Failed { error },
            ConnAction::Stop,
        ),
        (ConnState::Handshaking { attempt: _, desc }, ConnEvent::HandshakeOk) => (
            ConnState::Connected { desc },
            ConnAction::Stop,
        ),
        (
            ConnState::Handshaking { attempt, desc },
            ConnEvent::HandshakeRouting { host, port },
        ) => {
            if attempt == 1 {
                let d2 = desc.redirected(host, port);
                let d3 = d2.clone();
                (
                    ConnState::Dialing { attempt: 2, desc: d2 },
                    ConnAction::Open { desc: d3, discover: false },
                )
            } else {
                (
                    ConnState::Failed {
                        error: Error::Protocol("handshake redirected more than once".to_owned()),
                    },
                    ConnAction::Stop,
                )
            }
        },
        (ConnState::Handshaking { attempt: _, desc: _ }, ConnEvent::HandshakeFailed { error }) => (
            ConnState::Failed { error },
            ConnAction::Stop,
        ),
        (s, _) => (s, ConnAction::Stop),
    }
}

/// Read the outcome of a finished attempt: a live handle bound to the
/// address that actually handshaked — the redirect target, if one was
/// followed — or the error the attempt ended with.
pub fn finish(state: ConnState) -> (r: Result<Handle, Error>)
    requires
        state@ is Connected || state@ is Failed,
    ensures
        match state@ {
            ConnStateView::Connected { desc } => {
                &&& r matches Ok(h)
                &&& h@.host == desc.host
                &&& h@.port == desc.port
                &&& h@.status == HandleStatus::Live
            },
            ConnStateView::Failed { error } => r matches Err(e) && e@ == error,
            _ => false,
        },
{
    match state {
        ConnState::Connected { desc } => Ok(Handle::new_live(desc.host, desc.port)),
        ConnState::Failed { error } => Err(error),
        _ => {
            proof {
                assert(false);
            }
            Err(Error::Protocol(String::new()))
        },
    }
}

/// The state the connector is in after consuming `events` from `s`.
pub open spec fn state_after(s: ConnStateView, events: Seq<ConnEventView>) -> ConnStateView
    decreases events.len(),
{
    if events.len() == 0 {
        s
    } else {
        state_after(step_spec(s, events[0]).0, events.drop_first())
    }
}

/// The actions the connector hands out while consuming `events` from `s`
/// (not counting the action that came with `s` itself).
pub open spec fn actions_from(s: ConnStateView, events: Seq<ConnEventView>) -> Seq<ConnActionView>
    decreases events.len(),
{
    if events.len() == 0 {
        Seq::<ConnActionView>::empty()
    } else {
        seq![step_spec(s, events[0]).1] + actions_from(step_spec(s, events[0]).0,
            events.drop_first())
    }
}

/// A trace is well formed when every event answers the state it meets — the
/// shape every driving loop that performs the actions produces. Terminal
/// states accept no event, so a well-formed trace ends at the first terminal
/// state.
pub open spec fn wf_trace(s: ConnStateView, events: Seq<ConnEventView>) -> bool
    decreases events.len(),
{
    events.len() == 0 || (accepts(s, events[0]) && wf_trace(step_spec(s, events[0]).0,
        events.drop_first()))
}

/// How many of the actions ask for a transport to be opened.
pub open spec fn count_opens(acts: Seq<ConnActionView>) -> nat
    decreases acts.len(),
{
    if acts.len() == 0 {
        0
    } else {
        (if acts[0] is Open {
            1nat
        } else {
            0nat
        }) + count_opens(acts.drop_first())
    }
}

/// How many of the actions ask for the transport hook to run.
pub open spec fn count_hooks(acts: Seq<ConnActionView>) -> nat
    decreases acts.len(),
{
    if acts.len() == 0 {
        0
    } else {
        (if acts[0] is ApplyHook {
            1nat
        } else {
            0nat
        }) + count_hooks(acts.drop_first())
    }
}

/// How many of the events report a freshly opened transport.
pub open spec fn count_opened(events: Seq<ConnEventView>) -> nat
    decreases events.len(),
{
    if events.len() == 0 {
        0
    } else {
        (if events[0] is Opened {
            1nat
        } else {
            0nat
        }) + count_opened(events.drop_first())
    }
}

/// How many more transports the connector may still ask to open from `s`:
/// one while the first attempt can still be redirected, none afterwards.
pub open spec fn open_budget(s: ConnStateView) -> nat {
    match s {
        ConnStateView::Dialing { attempt, .. } => if attempt == 1 {
            1nat
        } else {
            0nat
        },
        ConnStateView::Tuning { attempt, .. } => if attempt == 1 {
            1nat
        } else {
            0nat
        },
        ConnStateView::Handshaking { attempt, .. } => if attempt == 1 {
            1nat
        } else {
            0nat
        },
        ConnStateView::Connected { .. } => 0,
        ConnStateView::Failed { .. } => 0,
    }
}

/// However a connection attempt unfolds, the connector never asks for more
/// transports than its budget — so a whole attempt, whose initial action is
/// the one `Open` of [`start_spec`] and whose budget is one more, opens at
/// most two transports.
pub proof fn lemma_opens_bounded(s: ConnStateView, events: Seq<ConnEventView>)
    ensures
        count_opens(actions_from(s, events)) <= open_budget(s),
    decreases events.len(),
{
    if events.len() > 0 {
        let s2 = step_spec(s, events[0]).0;
        let a = step_spec(s, events[0]).1;
        let rest = actions_from(s2, events.drop_first());
        lemma_opens_bounded(s2, events.drop_first());
        assert(actions_from(s, events) == seq![a] + rest);
        assert((seq![a] + rest)[0] == a);
        assert((seq![a] + rest).drop_first() =~= rest);
    }
}

/// In any well-formed trace, the connector asks for the transport hook
/// exactly once per transport that reported open — once per transport, the
/// redirected one included.
pub proof fn lemma_hook_once_per_open(s: ConnStateView, events: Seq<ConnEventView>)
    requires
        wf_trace(s, events),
    ensures
        count_hooks(actions_from(s, events)) == count_opened(events),
    decreases events.len(),
{
    if events.len() > 0 {
        let s2 = step_spec(s, events[0]).0;
        let a = step_spec(s, events[0]).1;
        let rest = actions_from(s2, events.drop_first());
        lemma_hook_once_per_open(s2, events.drop_first());
        assert(actions_from(s, events) == seq![a] + rest);
        assert((seq![a] + rest)[0] == a);
        assert((seq![a] + rest).drop_first() =~= rest);
    }
}

/// A well-formed trace never carries an event past a terminal state:
/// whatever happened, once the attempt is connected or failed the connector
/// is done and nothing further can be fed to it.
pub proof fn lemma_wf_trace_ends_at_terminal(s: ConnStateView, events: Seq<ConnEventView>)
    requires
        wf_trace(s, events),
        s is Connected || s is Failed,
    ensures
        events.len() == 0,
{
}

/// A server that completes the handshake on the first attempt: the whole
/// well-formed trace is open, hook, handshake — and the connector never asks
/// for a second transport: no `Open` beyond the initial action, and the
/// attempt ends connected to the original descriptor.
pub proof fn lemma_first_try_connects(desc: DescriptorView, discover: bool, events: Seq<
    ConnEventView,
>)
    requires
        events =~= seq![
            ConnEventView::Opened,
            ConnEventView::HookOk,
            ConnEventView::HandshakeOk,
        ],
    ensures
        wf_trace(start_spec(desc, discover).0, events),
        count_opens(actions_from(start_spec(desc, discover).0, events)) == 0,
        state_after(start_spec(desc, discover).0, events) == (ConnStateView::Connected { desc }),
{
    let s0 = start_spec(desc, discover).0;
    let s1 = step_spec(s0, events[0]).0;
    let s2 = step_spec(s1, events[1]).0;
    let s3 = step_spec(s2, events[2]).0;
    assert(s1 == (ConnStateView::Tuning { attempt: 1u8, desc }));
    assert(s2 == (ConnStateView::Handshaking { attempt: 1u8, desc }));
    assert(s3 == (ConnStateView::Connected { desc }));
    reveal_with_fuel(wf_trace, 4);
    reveal_with_fuel(actions_from, 4);
    reveal_with_fuel(count_opens, 4);
    reveal_with_fuel(state_after, 4);
    assert(events.drop_first() =~= seq![ConnEventView::HookOk, ConnEventView::HandshakeOk]);
    assert(events.drop_first().drop_first() =~= seq![ConnEventView::HandshakeOk]);
    assert(events.drop_first().drop_first().drop_first() =~= Seq::<ConnEventView>::empty());
}

/// A server that signals exactly one routing redirect and then accepts: the
/// connector asks for exactly one more transport — two in all — and the
/// attempt ends connected to the redirect target, every field but the
/// address unchanged.
pub proof fn lemma_one_redirect_connects(
    desc: DescriptorView,
    discover: bool,
    host: Seq<char>,
    port: u16,
    events: Seq<ConnEventView>,
)
    requires
        events =~= seq![
            ConnEventView::Opened,
            ConnEventView::HookOk,
            ConnEventView::HandshakeRouting { host, port },
            ConnEventView::Opened,
            ConnEventView::HookOk,
            ConnEventView::HandshakeOk,
        ],
    ensures
        wf_trace(start_spec(desc, discover).0, events),
        count_opens(actions_from(start_spec(desc, discover).0, events)) == 1,
        state_after(start_spec(desc, discover).0, events) == (ConnStateView::Connected {
            desc: redirect_view(desc, host, port),
        }),
{
    let s0 = start_spec(desc, discover).0;
    let d2 = redirect_view(desc, host, port);
    let s1 = step_spec(s0, events[0]).0;
    let s2 = step_spec(s1, events[1]).0;
    let s3 = step_spec(s2, events[2]).0;
    let s4 = step_spec(s3, events[3]).0;
    let s5 = step_spec(s4, events[4]).0;
    let s6 = step_spec(s5, events[5]).0;
    assert(s1 == (ConnStateView::Tuning { attempt: 1u8, desc }));
    assert(s2 == (ConnStateView::Handshaking { attempt: 1u8, desc }));
    assert(s3 == (ConnStateView::Dialing { attempt: 2u8, desc: d2 }));
    assert(s4 == (ConnStateView::Tuning { attempt: 2u8, desc: d2 }));
    assert(s5 == (ConnStateView::Handshaking { attempt: 2u8, desc: d2 }));
    assert(s6 == (ConnStateView::Connected { desc: d2 }));
    reveal_with_fuel(wf_trace, 7);
    reveal_with_fuel(actions_from, 7);
    reveal_with_fuel(count_opens, 7);
    reveal_with_fuel(state_after, 7);
    assert(events.drop_first() =~= events.subrange(1, 6));
    assert(events.subrange(1, 6).drop_first() =~= events.subrange(2, 6));
    assert(events.subrange(2, 6).drop_first() =~= events.subrange(3, 6));
    assert(events.subrange(3, 6).drop_first() =~= events.subrange(4, 6));
    assert(events.subrange(4, 6).drop_first() =~= events.subrange(5, 6));
    assert(events.subrange(5, 6).drop_first() =~= Seq::<ConnEventView>::empty());
}

/// A server that signals routing twice in a row: the second signal is not
/// followed — the attempt fails with a protocol error and the connector
/// still asked for only the one extra transport, no third.
pub proof fn lemma_double_redirect_fails(
    desc: DescriptorView,
    discover: bool,
    h1: Seq<char>,
    p1: u16,
    h2: Seq<char>,
    p2: u16,
    events: Seq<ConnEventView>,
)
    requires
        events =~= seq![
            ConnEventView::Opened,
            ConnEventView::HookOk,
            ConnEventView::HandshakeRouting { host: h1, port: p1 },
            ConnEventView::Opened,
            ConnEventView::HookOk,
            ConnEventView::HandshakeRouting { host: h2, port: p2 },
        ],
    ensures
        wf_trace(start_spec(desc, discover).0, events),
        count_opens(actions_from(start_spec(desc, discover).0, events)) == 1,
        state_after(start_spec(desc, discover).0, events) == (ConnStateView::Failed {
            error: ErrorView::Protocol(repeat_routing_text()),
        }),
{
    let s0 = start_spec(desc, discover).0;
    let d2 = redirect_view(desc, h1, p1);
    let s1 = step_spec(s0, events[0]).0;
    let s2 = step_spec(s1, events[1]).0;
    let s3 = step_spec(s2, events[2]).0;
    let s4 = step_spec(s3, events[3]).0;
    let s5 = step_spec(s4, events[4]).0;
    let s6 = step_spec(s5, events[5]).0;
    assert(s1 == (ConnStateView::Tuning { attempt: 1u8, desc }));
    assert(s2 == (ConnStateView::Handshaking { attempt: 1u8, desc }));
    assert(s3 == (ConnStateView::Dialing { attempt: 2u8, desc: d2 }));
    assert(s4 == (ConnStateView::Tuning { attempt: 2u8, desc: d2 }));
    assert(s5 == (ConnStateView::Handshaking { attempt: 2u8, desc: d2 }));
    assert(s6 == (ConnStateView::Failed { error: ErrorView::Protocol(repeat_routing_text()) }));
    reveal_with_fuel(wf_trace, 7);
    reveal_with_fuel(actions_from, 7);
    reveal_with_fuel(count_opens, 7);
    reveal_with_fuel(state_after, 7);
    assert(events.drop_first() =~= events.subrange(1, 6));
    assert(events.subrange(1, 6).drop_first() =~= events.subrange(2, 6));
    assert(events.subrange(2, 6).drop_first() =~= events.subrange(3, 6));
    assert(events.subrange(3, 6).drop_first() =~= events.subrange(4, 6));
    assert(events.subrange(4, 6).drop_first() =~= events.subrange(5, 6));
    assert(events.subrange(5, 6).drop_first() =~= Seq::<ConnEventView>::empty());
}

} // verus!

