//! The reconnect loop: which step follows each outcome of a connection.
//!
//! The loop itself runs in the driver, because connecting, sleeping and
//! serving a socket are its work. Every decision of the loop is taken here:
//! the driver reports an event with [`Connection::step`] and carries out the
//! actions that come back, in their order.

use vstd::prelude::*;
use crate::options::{seconds, MqttOptions, ReconnectOptions};
use crate::dispatcher::{ends_dispatcher, DispatchAction};
use crate::packet::{Packet, Publish};
use crate::ping::{period_of, ping_period};
use crate::receiver::Verdict;

verus! {

/// Where the loop stands.
#[derive(Clone, Copy, Debug, PartialEq, Eq, Structural)]
pub enum Phase {
    /// Not started yet.
    Idle,
    /// A connect and handshake is under way.
    Connecting,
    /// The loop sleeps before the next connect.
    Backoff,
    /// A connection is up; receiver and dispatcher run on it.
    Online,
    /// The loop has ended for good.
    Stopped,
}

/// What the driver reports to the loop.
#[derive(Clone, Debug, PartialEq, Eq)]
pub enum LoopEvent {
    /// The connect or the handshake failed: a transport error, a reply that
    /// is no CONNACK, or a CONNACK that the session state turned down.
    ConnectFailed,
    /// The handshake succeeded. Carries the publishes that the session state
    /// holds unacknowledged from the session before, oldest first.
    Connected(Vec<Publish>),
    /// The backoff sleep is over.
    BackoffElapsed,
    /// Receiver or dispatcher ended, in whatever way.
    Disconnected,
}

/// What the loop asks of the driver.
#[derive(Clone, Debug, PartialEq, Eq)]
pub enum LoopAction {
    /// Resolve the broker's address anew, connect and shake hands.
    Connect,
    /// Block for this many seconds.
    Sleep(u64),
    /// Write this packet on the new connection.
    Send(Packet),
    /// Start a ping scheduler with this period in seconds.
    StartPing(u64),
    /// Run receiver and dispatcher until either ends.
    Serve,
    /// Discard the connection with its ping scheduler.
    Teardown,
    /// End the loop.
    Halt,
}

/// What a failed connect leads to.
#[derive(Clone, Copy, Debug, PartialEq, Eq, Structural)]
pub enum RetryDecision {
    /// Give up.
    Terminate,
    /// Sleep this many seconds, then connect again.
    RetryAfter(u64),
}

/// The policy on a failed connect, given whether a connect ever succeeded.
pub open spec fn retry_decision(policy: ReconnectOptions, ever_connected: bool) -> RetryDecision {
    match policy {
        ReconnectOptions::Never => RetryDecision::Terminate,
        ReconnectOptions::AfterFirstSuccess(d) => if ever_connected {
            RetryDecision::Terminate
        } else {
            RetryDecision::RetryAfter(d as u64)
        },
        ReconnectOptions::Always(d) => RetryDecision::RetryAfter(d as u64),
    }
}

/// Applies the reconnect policy to a failed connect.
pub fn decide_retry(policy: ReconnectOptions, ever_connected: bool) -> (decision: RetryDecision)
    ensures
        decision == retry_decision(policy, ever_connected),
{
    match policy {
        ReconnectOptions::Never => RetryDecision::Terminate,
        ReconnectOptions::AfterFirstSuccess(d) => {
            if ever_connected {
                RetryDecision::Terminate
            } else {
                RetryDecision::RetryAfter(seconds(d))
            }
        },
        ReconnectOptions::Always(d) => RetryDecision::RetryAfter(seconds(d)),
    }
}

/// The state of the loop as contracts see it.
pub struct LoopState {
    pub policy: ReconnectOptions,
    pub keep_alive: Option<u16>,
    pub phase: Phase,
    pub ever_connected: bool,
}

/// The resends of `pending`, in its order.
pub open spec fn resends(pending: Seq<Publish>) -> Seq<LoopAction> {
    pending.map_values(|p: Publish| LoopAction::Send(Packet::Publish(p)))
}

/// The ping scheduler's start, where a keepalive is configured: its period
/// is the keepalive.
pub open spec fn ping_start(keep_alive: Option<u16>) -> Seq<LoopAction> {
    match period_of(keep_alive) {
        Some(period) => seq![LoopAction::StartPing(period)],
        None => seq![],
    }
}

/// The state that follows `event`. An event that does not belong to the
/// phase leaves the state as it is.
pub open spec fn next_state(s: LoopState, event: LoopEvent) -> LoopState {
    match (s.phase, event) {
        (Phase::Connecting, LoopEvent::ConnectFailed) => match retry_decision(
            s.policy,
            s.ever_connected,
        ) {
            RetryDecision::Terminate => LoopState { phase: Phase::Stopped, ..s },
            RetryDecision::RetryAfter(_) => LoopState { phase: Phase::Backoff, ..s },
        },
        (Phase::Connecting, LoopEvent::Connected(_)) => LoopState {
            phase: Phase::Online,
            ever_connected: true,
            ..s
        },
        (Phase::Backoff, LoopEvent::BackoffElapsed) => LoopState { phase: Phase::Connecting, ..s },
        (Phase::Online, LoopEvent::Disconnected) => LoopState { phase: Phase::Connecting, ..s },
        _ => s,
    }
}

/// The actions that `event` calls for, in the order in which they are due.
/// An event that does not belong to the phase calls for none.
pub open spec fn actions_for(s: LoopState, event: LoopEvent) -> Seq<LoopAction> {
    match (s.phase, event) {
        (Phase::Connecting, LoopEvent::ConnectFailed) => match retry_decision(
            s.policy,
            s.ever_connected,
        ) {
            RetryDecision::Terminate => seq![LoopAction::Halt],
            RetryDecision::RetryAfter(d) => seq![LoopAction::Sleep(d)],
        },
        (Phase::Connecting, LoopEvent::Connected(pending)) => resends(pending@) + ping_start(
            s.keep_alive,
        ) + seq![LoopAction::Serve],
        (Phase::Backoff, LoopEvent::BackoffElapsed) => seq![LoopAction::Connect],
        (Phase::Online, LoopEvent::Disconnected) => seq![
            LoopAction::Teardown,
            LoopAction::Connect,
        ],
        _ => seq![],
    }
}

/// The reconnect loop of one client.
pub struct Connection {
    opts: MqttOptions,
    phase: Phase,
    ever_connected: bool,
}

impl View for Connection {
    type V = LoopState;

    closed spec fn view(&self) -> LoopState {
        LoopState {
            policy: self.opts.reconnect,
            keep_alive: self.opts.keep_alive,
            phase: self.phase,
            ever_connected: self.ever_connected,
        }
    }
}

impl Connection {
    /// The broker address that the loop was configured with.
    pub closed spec fn broker(&self) -> String {
        self.opts.broker_addr
    }

    /// A loop that has not started. `first_connection` says whether the
    /// session state has never seen a connect succeed.
    pub fn new(opts: MqttOptions, first_connection: bool) -> (c: Connection)
        ensures
            c@ == (LoopState {
                policy: opts.reconnect,
                keep_alive: opts.keep_alive,
                phase: Phase::Idle,
                ever_connected: !first_connection,
            }),
            c.broker() == opts.broker_addr,
    {
        Connection { opts, phase: Phase::Idle, ever_connected: !first_connection }
    }

    /// Starts the loop: asks for the first connect. On a loop that was
    /// started before, it asks for nothing and changes nothing.
    pub fn start(&mut self) -> (actions: Vec<LoopAction>)
        ensures
            final(self).broker() == old(self).broker(),
            old(self)@.phase == Phase::Idle ==> final(self)@ == (LoopState {
                phase: Phase::Connecting,
                ..old(self)@
            }) && actions@ == seq![LoopAction::Connect],
            old(self)@.phase != Phase::Idle ==> final(self)@ == old(self)@ && actions@ == Seq::<
                LoopAction,
            >::empty(),
    {
        let mut actions: Vec<LoopAction> = Vec::new();
        if self.phase == Phase::Idle {
            self.phase = Phase::Connecting;
            actions.push(LoopAction::Connect);
        }
        actions
    }

    /// Takes one event and hands back what the driver does next.
    pub fn step(&mut self, event: LoopEvent) -> (actions: Vec<LoopAction>)
        ensures
            final(self)@ == next_state(old(self)@, event),
            actions@ == actions_for(old(self)@, event),
            final(self).broker() == old(self).broker(),
    {
        let mut actions: Vec<LoopAction> = Vec::new();
        match event {
            LoopEvent::ConnectFailed => {
                if self.phase == Phase::Connecting {
                    match decide_retry(self.opts.reconnect, self.ever_connected) {
                        RetryDecision::Terminate => {
                            self.phase = Phase::Stopped;
                            actions.push(LoopAction::Halt);
                        },
                        RetryDecision::RetryAfter(d) => {
                            self.phase = Phase::Backoff;
                            actions.push(LoopAction::Sleep(d));
                        },
                    }
                }
            },
            LoopEvent::Connected(pending) => {
                if self.phase == Phase::Connecting {
                    self.phase = Phase::Online;
                    self.ever_connected = true;
                    actions = resend_all(pending);
                    if let Some(period) = ping_period(self.opts.keep_alive) {
                        actions.push(LoopAction::StartPing(period));
                    }
                    actions.push(LoopAction::Serve);
                }
            },
            LoopEvent::BackoffElapsed => {
                if self.phase == Phase::Backoff {
                    self.phase = Phase::Connecting;
                    actions.push(LoopAction::Connect);
                }
            },
            LoopEvent::Disconnected => {
                if self.phase == Phase::Online {
                    self.phase = Phase::Connecting;
                    actions.push(LoopAction::Teardown);
                    actions.push(LoopAction::Connect);
                }
            },
        }
        proof {
            assert(actions@ =~= actions_for(old(self)@, event));
        }
        actions
    }

    /// The phase that the loop is in.
    pub fn phase(&self) -> (p: Phase)
        ensures
            p == self@.phase,
    {
        self.phase
    }

    /// Whether a connect has ever succeeded.
    pub fn ever_connected(&self) -> (b: bool)
        ensures
            b == self@.ever_connected,
    {
        self.ever_connected
    }

    /// The options that the loop was made with.
    pub fn options(&self) -> (o: &MqttOptions)
        ensures
            o.reconnect == self@.policy,
            o.keep_alive == self@.keep_alive,
            o.broker_addr == self.broker(),
    {
        &self.opts
    }
}

/// Turns the publishes left over from the session before into resends,
/// keeping their order.
pub fn resend_all(pending: Vec<Publish>) -> (actions: Vec<LoopAction>)
    ensures
        actions@ == resends(pending@),
{
    let ghost all = pending@;
    let mut rest = pending;
    let mut actions: Vec<LoopAction> = Vec::new();
    while rest.len() > 0
        invariant
            actions@.len() + rest@.len() == all.len(),
            forall|i: int|
                0 <= i < actions@.len() ==> actions@[i] == LoopAction::Send(
                    Packet::Publish(all[i]),
                ),
            forall|j: int| 0 <= j < rest@.len() ==> rest@[j] == all[actions@.len() + j],
        decreases rest@.len(),
    {
        let p = rest.remove(0);
        actions.push(LoopAction::Send(Packet::Publish(p)));
    }
    proof {
        assert(actions@ =~= resends(all));
    }
    actions
}

/// Whether a connection is over, given what the receiver and the
/// dispatcher answered last: it is as soon as either of them is done, and
/// how it came to be done makes no difference.
pub open spec fn connection_over(receiver: Verdict, dispatcher: DispatchAction) -> bool {
    !(receiver is Continue) || ends_dispatcher(dispatcher)
}

/// Tells what to report to the loop after the receiver or the dispatcher
/// has answered: the end of the connection when either is done, in which
/// case the other is to be cancelled, and nothing while both go on.
pub fn link_event(receiver: &Verdict, dispatcher: &DispatchAction) -> (event: Option<LoopEvent>)
    ensures
        event == if connection_over(*receiver, *dispatcher) {
            Some(LoopEvent::Disconnected)
        } else {
            None
        },
{
    let receiver_done = match receiver {
        Verdict::Continue => false,
        _ => true,
    };
    let dispatcher_done = match dispatcher {
        DispatchAction::Finish => true,
        DispatchAction::Fail(_) => true,
        _ => false,
    };
    if receiver_done || dispatcher_done {
        Some(LoopEvent::Disconnected)
    } else {
        None
    }
}

/// The state after a whole sequence of events.
pub open spec fn run_state(s: LoopState, events: Seq<LoopEvent>) -> LoopState
    decreases events.len(),
{
    if events.len() == 0 {
        s
    } else {
        run_state(next_state(s, events[0]), events.drop_first())
    }
}

/// Every action that a sequence of events calls for, in order.
pub open spec fn run_actions(s: LoopState, events: Seq<LoopEvent>) -> Seq<LoopAction>
    decreases events.len(),
{
    if events.len() == 0 {
        seq![]
    } else {
        actions_for(s, events[0]) + run_actions(next_state(s, events[0]), events.drop_first())
    }
}

/// `n` failed connects in a row, each followed by the end of its backoff.
pub open spec fn failures(n: nat) -> Seq<LoopEvent>
    decreases n,
{
    if n == 0 {
        seq![]
    } else {
        seq![LoopEvent::ConnectFailed, LoopEvent::BackoffElapsed] + failures((n - 1) as nat)
    }
}

/// `n` rounds of sleeping `d` seconds and connecting again.
pub open spec fn retries(d: u64, n: nat) -> Seq<LoopAction>
    decreases n,
{
    if n == 0 {
        seq![]
    } else {
        seq![LoopAction::Sleep(d), LoopAction::Connect] + retries(d, (n - 1) as nat)
    }
}

/// A run over `first` and then `later` is the step on `first` followed by
/// the run over `later`.
pub proof fn lemma_run_unfold(s: LoopState, first: LoopEvent, later: Seq<LoopEvent>)
    ensures
        run_state(s, seq![first] + later) == run_state(next_state(s, first), later),
        run_actions(s, seq![first] + later) == actions_for(s, first) + run_actions(
            next_state(s, first),
            later,
        ),
{
    let events = seq![first] + later;
    assert(events[0] == first);
    assert(events.drop_first() =~= later);
}

/// A stopped loop stays stopped: whatever is reported to it, it asks for
/// nothing more, so no further connect is ever made.
pub proof fn law_stopped_is_final(s: LoopState, events: Seq<LoopEvent>)
    requires
        s.phase == Phase::Stopped,
    ensures
        run_state(s, events) == s,
        run_actions(s, events) == Seq::<LoopAction>::empty(),
    decreases events.len(),
{
    if events.len() > 0 {
        law_stopped_is_final(s, events.drop_first());
        assert(run_actions(s, events) =~= Seq::<LoopAction>::empty());
    }
}

/// Under `Never`, the first failed connect ends the loop: the one action is
/// to halt, and nothing that is reported later brings another attempt.
pub proof fn law_never_gives_up_at_once(s: LoopState, later: Seq<LoopEvent>)
    requires
        s.policy == ReconnectOptions::Never,
        s.phase == Phase::Connecting,
    ensures
        run_actions(s, seq![LoopEvent::ConnectFailed] + later) == seq![LoopAction::Halt],
        run_state(s, seq![LoopEvent::ConnectFailed] + later).phase == Phase::Stopped,
{
    lemma_run_unfold(s, LoopEvent::ConnectFailed, later);
    law_stopped_is_final(next_state(s, LoopEvent::ConnectFailed), later);
    assert(run_actions(s, seq![LoopEvent::ConnectFailed] + later) =~= seq![LoopAction::Halt]);
}

/// Under `AfterFirstSuccess(d)`, while no connect has succeeded, a failed
/// connect is followed by a sleep of `d` seconds and another connect, and
/// the loop then stands where it stood.
pub proof fn law_retries_before_first_success(s: LoopState, d: u16)
    requires
        s.policy == ReconnectOptions::AfterFirstSuccess(d),
        s.phase == Phase::Connecting,
        !s.ever_connected,
    ensures
        run_actions(s, failures(1)) == seq![LoopAction::Sleep(d as u64), LoopAction::Connect],
        run_state(s, failures(1)) == s,
{
    lemma_failure_round(s, d as u64, 1);
    assert(retries(d as u64, 1) =~= seq![LoopAction::Sleep(d as u64), LoopAction::Connect]) by {
        reveal_with_fuel(retries, 2);
    }
}

/// Under `AfterFirstSuccess`, once a connect has succeeded, the next failed
/// connect ends the loop, and nothing reported later brings another attempt.
pub proof fn law_gives_up_after_first_success(s: LoopState, d: u16, later: Seq<LoopEvent>)
    requires
        s.policy == ReconnectOptions::AfterFirstSuccess(d),
        s.phase == Phase::Connecting,
        s.ever_connected,
    ensures
        run_actions(s, seq![LoopEvent::ConnectFailed] + later) == seq![LoopAction::Halt],
        run_state(s, seq![LoopEvent::ConnectFailed] + later).phase == Phase::Stopped,
{
    lemma_run_unfold(s, LoopEvent::ConnectFailed, later);
    law_stopped_is_final(next_state(s, LoopEvent::ConnectFailed), later);
    assert(run_actions(s, seq![LoopEvent::ConnectFailed] + later) =~= seq![LoopAction::Halt]);
}

/// A successful connect is remembered through the connection that follows
/// it: when that connection has ended, the loop is back at connecting and
/// knows that a connect has succeeded.
pub proof fn law_success_is_remembered(s: LoopState, pending: Vec<Publish>)
    requires
        s.phase == Phase::Connecting,
    ensures
        run_state(s, seq![LoopEvent::Connected(pending), LoopEvent::Disconnected]) == (LoopState {
            ever_connected: true,
            ..s
        }),
{
    lemma_run_unfold(s, LoopEvent::Connected(pending), seq![LoopEvent::Disconnected]);
    let online = next_state(s, LoopEvent::Connected(pending));
    lemma_run_unfold(online, LoopEvent::Disconnected, seq![]);
    assert(seq![LoopEvent::Connected(pending)] + seq![LoopEvent::Disconnected] =~= seq![
        LoopEvent::Connected(pending),
        LoopEvent::Disconnected,
    ]);
    assert(seq![LoopEvent::Disconnected] + Seq::<LoopEvent>::empty() =~= seq![
        LoopEvent::Disconnected,
    ]);
}

/// Under `Always(d)`, every failed connect is followed by a sleep of `d`
/// seconds and another connect, however many fail in a row and whether or
/// not a connect has succeeded before.
pub proof fn law_always_retries(s: LoopState, d: u16, n: nat)
    requires
        s.policy == ReconnectOptions::Always(d),
        s.phase == Phase::Connecting,
    ensures
        run_actions(s, failures(n)) == retries(d as u64, n),
        run_state(s, failures(n)) == s,
{
    lemma_failure_round(s, d as u64, n);
}

/// Where the policy answers a failure with a retry after `d` seconds, `n`
/// failures in a row give `n` rounds of sleeping and connecting.
pub proof fn lemma_failure_round(s: LoopState, d: u64, n: nat)
    requires
        s.phase == Phase::Connecting,
        retry_decision(s.policy, s.ever_connected) == RetryDecision::RetryAfter(d),
    ensures
        run_actions(s, failures(n)) == retries(d, n),
        run_state(s, failures(n)) == s,
    decreases n,
{
    if n > 0 {
        let tail = failures((n - 1) as nat);
        let asleep = next_state(s, LoopEvent::ConnectFailed);
        assert(failures(n) =~= seq![LoopEvent::ConnectFailed] + (seq![LoopEvent::BackoffElapsed]
            + tail));
        lemma_run_unfold(s, LoopEvent::ConnectFailed, seq![LoopEvent::BackoffElapsed] + tail);
        lemma_run_unfold(asleep, LoopEvent::BackoffElapsed, tail);
        assert(next_state(asleep, LoopEvent::BackoffElapsed) == s);
        lemma_failure_round(s, d, (n - 1) as nat);
        assert(run_actions(s, failures(n)) =~= retries(d, n));
    }
}

/// The end of a connection leads to a new connect whatever the policy: the
/// policy is asked only when a connect fails.
pub proof fn law_link_loss_reconnects(s: LoopState)
    requires
        s.phase == Phase::Online,
    ensures
        actions_for(s, LoopEvent::Disconnected) == seq![LoopAction::Teardown, LoopAction::Connect],
        next_state(s, LoopEvent::Disconnected) == (LoopState { phase: Phase::Connecting, ..s }),
{
}

/// Whatever is reported to the loop, its configuration stays as it is, and
/// a success that it knows of is never forgotten.
pub proof fn law_configuration_is_fixed(s: LoopState, events: Seq<LoopEvent>)
    ensures
        run_state(s, events).policy == s.policy,
        run_state(s, events).keep_alive == s.keep_alive,
        s.ever_connected ==> run_state(s, events).ever_connected,
    decreases events.len(),
{
    if events.len() > 0 {
        law_configuration_is_fixed(next_state(s, events[0]), events.drop_first());
    }
}

/// After a connect has succeeded, the publishes left unacknowledged by the
/// session before are written first, in their original order; receiver and
/// dispatcher are started last, so no queued command is written before them.
pub proof fn law_resends_precede_serving(s: LoopState, pending: Vec<Publish>)
    requires
        s.phase == Phase::Connecting,
    ensures
        ({
            let a = actions_for(s, LoopEvent::Connected(pending));
            &&& a.len() > pending@.len()
            &&& forall|i: int|
                0 <= i < pending@.len() ==> a[i] == LoopAction::Send(Packet::Publish(pending@[i]))
            &&& forall|i: int| pending@.len() <= i < a.len() ==> !(a[i] is Send)
            &&& forall|i: int| 0 <= i < a.len() ==> (a[i] is Serve <==> i == a.len() - 1)
        }),
{
}

} // verus!
