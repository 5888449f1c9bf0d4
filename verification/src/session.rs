//! The session state machine.
//!
//! A session is one logical connection to the broker. Its life is
//! `Disconnected -> Connected` on a successful connect, `Connected ->
//! Connecting` when the transport drops the session, `Connecting ->
//! Connected` when a bounded reconnect succeeds, and `Connecting ->
//! Terminated` when every attempt fails. `Terminated` is absorbing: the
//! surrounding process shuts down once it is reached.
//!
//! The machine decides; the surrounding program acts. It feeds every
//! transport event into a method here, performs the returned action (append
//! a record, sleep and retry, tear down), and reports the outcome back.
//! Each method's contract ties it to a spec-level transition function, and
//! the proof functions at the end of this module state the laws of whole
//! runs of the machine.

use vstd::prelude::*;

verus! {

/// Connectivity state of a session.
#[derive(Clone, Copy, PartialEq, Eq, Structural, Debug)]
pub enum ConnState {
    Disconnected,
    Connecting,
    Connected,
    Terminated,
}

/// The reconnect policy: how many attempts are made after a dropped
/// session, and how long each attempt waits first.
#[derive(Clone, Copy, PartialEq, Eq, Structural, Debug)]
pub struct RetryPolicy {
    pub max_attempts: u32,
    pub delay_ms: u64,
}

impl RetryPolicy {
    /// A policy makes at least one attempt.
    pub open spec fn wf(self) -> bool {
        self.max_attempts >= 1
    }

    /// The agent's fixed policy: twelve attempts, 5000 ms apart. A fixed
    /// linear delay, not an exponential one: the broker endpoint is assumed
    /// stable and nearby, and fast recovery is preferred.
    pub fn standard() -> (p: RetryPolicy)
        ensures
            p.max_attempts == 12,
            p.delay_ms == 5000,
            p.wf(),
    {
        RetryPolicy { max_attempts: 12, delay_ms: 5000 }
    }
}

/// One received message: a topic and its payload rendered as text.
pub struct Message {
    pub topic: String,
    pub payload: String,
}

/// One item produced by the consumption channel: either a real message or
/// the disconnect sentinel the transport emits when it drops the session.
pub enum InboundItem {
    Message(Message),
    Disconnect,
}

/// What the consumption loop must do with one inbound item.
pub enum LoopAction {
    /// Append one record for this message to the log, then keep consuming
    /// whether or not the append succeeds.
    Log(Message),
    /// A spurious sentinel: the transport is still connected, nothing to do.
    Skip,
    /// A genuine disconnect: run the bounded reconnect protocol.
    Reconnect,
}

/// What the reconnect protocol asks for after one attempt.
#[derive(Clone, Copy, PartialEq, Eq, Structural, Debug)]
pub enum ReconnectStep {
    /// The attempt succeeded: resume consuming.
    Resumed,
    /// The attempt failed and attempts remain: wait this many milliseconds
    /// and try again.
    RetryAfterDelay(u64),
    /// Every attempt failed: the session is terminated.
    GaveUp,
}

/// One logical connection to the broker: its connectivity state, whether
/// the topic subscription is held, and the reconnect protocol's progress.
#[derive(Clone, Copy, PartialEq, Eq, Structural, Debug)]
pub struct Session {
    pub state: ConnState,
    pub subscribed: bool,
    /// Attempts the reconnect protocol may still make; meaningful while
    /// `state` is `Connecting`.
    pub attempts_left: u32,
    pub policy: RetryPolicy,
}

/// Spec-level transition for one inbound item: a message leaves the session
/// as it is, and so does a sentinel while the transport is still connected;
/// a genuine disconnect moves it to `Connecting` with the full budget of
/// attempts.
pub open spec fn spec_on_item(s: Session, is_message: bool, transport_connected: bool) -> Session {
    if is_message || transport_connected {
        s
    } else {
        Session { state: ConnState::Connecting, attempts_left: s.policy.max_attempts, ..s }
    }
}

/// Spec-level transition for a log-sink outcome: the session ignores it
/// entirely, success or failure.
pub open spec fn spec_on_sink_result(s: Session, ok: bool) -> Session {
    s
}

/// Spec-level transition for one reconnect attempt.
pub open spec fn spec_on_reconnect_attempt(s: Session, succeeded: bool) -> Session {
    if succeeded {
        Session { state: ConnState::Connected, ..s }
    } else if s.attempts_left > 1 {
        Session { attempts_left: (s.attempts_left - 1) as u32, ..s }
    } else {
        Session { state: ConnState::Terminated, attempts_left: 0, ..s }
    }
}

impl Session {
    /// The machine's invariant: the policy is usable, the remaining-attempt
    /// counter never exceeds the budget, and while reconnecting at least one
    /// attempt remains.
    pub open spec fn inv(self) -> bool {
        &&& self.policy.wf()
        &&& self.attempts_left <= self.policy.max_attempts
        &&& (self.state is Connecting ==> self.attempts_left >= 1)
    }

    /// A fresh, not yet connected session.
    pub fn new(policy: RetryPolicy) -> (s: Session)
        requires
            policy.wf(),
        ensures
            s.inv(),
            s.state is Disconnected,
            !s.subscribed,
            s.policy == policy,
    {
        Session { state: ConnState::Disconnected, subscribed: false, attempts_left: 0, policy }
    }

    /// The broker accepted the initial connect. The subscription must be
    /// issued exactly when the broker reports no persisted session; a
    /// persisted session already holds it, and no duplicate subscribe call
    /// is made.
    pub fn on_connect_success(&mut self, session_present: bool) -> (subscribe_needed: bool)
        requires
            old(self).inv(),
            old(self).state is Disconnected,
        ensures
            final(self).inv(),
            final(self).state is Connected,
            subscribe_needed == !session_present,
            final(self).subscribed == session_present,
            final(self).policy == old(self).policy,
            final(self).attempts_left == old(self).attempts_left,
    {
        self.state = ConnState::Connected;
        self.subscribed = session_present;
        !session_present
    }

    /// After a successful reconnect, the subscription must be re-established
    /// exactly when the broker reports no persisted session; when a
    /// persisted session is reported, no duplicate subscribe call is issued.
    pub fn resubscribe_needed(&mut self, session_present: bool) -> (subscribe_needed: bool)
        requires
            old(self).inv(),
            old(self).state is Connected,
        ensures
            final(self).inv(),
            subscribe_needed == !session_present,
            final(self).subscribed == session_present,
            final(self).state == old(self).state,
            final(self).policy == old(self).policy,
            final(self).attempts_left == old(self).attempts_left,
    {
        self.subscribed = session_present;
        !session_present
    }

    /// The subscribe call was granted: the session is fully established.
    pub fn on_subscribe_success(&mut self)
        requires
            old(self).inv(),
            old(self).state is Connected,
        ensures
            final(self).inv(),
            final(self).state is Connected,
            final(self).subscribed,
            final(self).policy == old(self).policy,
            final(self).attempts_left == old(self).attempts_left,
    {
        self.subscribed = true;
    }

    /// The subscribe call failed. That is fatal by design: it indicates a
    /// configuration or permission problem, not transient connectivity, so
    /// the session terminates instead of retrying.
    pub fn on_subscribe_failure(&mut self)
        requires
            old(self).inv(),
        ensures
            final(self).inv(),
            final(self).state is Terminated,
            final(self).policy == old(self).policy,
    {
        self.state = ConnState::Terminated;
        self.attempts_left = 0;
    }

    /// One inbound item from the consumption channel, together with what the
    /// transport reports about its own connectivity at that moment.
    ///
    /// A message is logged and the session is untouched. A disconnect
    /// sentinel while the transport still reports connected is spurious: the
    /// session is untouched and no reconnect begins. A sentinel while the
    /// transport reports disconnected starts the reconnect protocol with the
    /// policy's full budget of attempts.
    pub fn on_item(&mut self, item: InboundItem, transport_connected: bool) -> (action: LoopAction)
        requires
            old(self).inv(),
            old(self).state is Connected,
        ensures
            final(self).inv(),
            *final(self) == spec_on_item(*old(self), item is Message, transport_connected),
            match item {
                InboundItem::Message(m) => (action matches LoopAction::Log(lm) && lm.topic@
                    == m.topic@ && lm.payload@ == m.payload@),
                InboundItem::Disconnect => (if transport_connected {
                    action is Skip
                } else {
                    action is Reconnect
                }),
            },
    {
        match item {
            InboundItem::Message(m) => LoopAction::Log(m),
            InboundItem::Disconnect => {
                if transport_connected {
                    LoopAction::Skip
                } else {
                    self.state = ConnState::Connecting;
                    self.attempts_left = self.policy.max_attempts;
                    LoopAction::Reconnect
                }
            },
        }
    }

    /// The outcome of one log-sink append. The session ignores it: a failed
    /// write is reported by the surrounding program and consumption goes on,
    /// so a single failure can never end the subscription.
    pub fn on_sink_result(&mut self, ok: bool)
        requires
            old(self).inv(),
        ensures
            *final(self) == spec_on_sink_result(*old(self), ok),
            *final(self) == *old(self),
    {
    }

    /// One reconnect attempt's outcome. On success consumption resumes; on
    /// failure the protocol either waits the policy's delay and tries again
    /// or, when the budget is spent, terminates the session.
    pub fn on_reconnect_attempt(&mut self, succeeded: bool) -> (step: ReconnectStep)
        requires
            old(self).inv(),
            old(self).state is Connecting,
        ensures
            final(self).inv(),
            *final(self) == spec_on_reconnect_attempt(*old(self), succeeded),
            step == (if succeeded {
                ReconnectStep::Resumed
            } else if old(self).attempts_left > 1 {
                ReconnectStep::RetryAfterDelay(old(self).policy.delay_ms)
            } else {
                ReconnectStep::GaveUp
            }),
            final(self).subscribed == old(self).subscribed,
            final(self).policy == old(self).policy,
    {
        if succeeded {
            self.state = ConnState::Connected;
            ReconnectStep::Resumed
        } else if self.attempts_left > 1 {
            self.attempts_left = self.attempts_left - 1;
            ReconnectStep::RetryAfterDelay(self.policy.delay_ms)
        } else {
            self.attempts_left = 0;
            self.state = ConnState::Terminated;
            ReconnectStep::GaveUp
        }
    }

    /// At shutdown, the topic is unsubscribed and the connection closed
    /// exactly when the transport still reports the session as connected;
    /// an already-dropped session gets no teardown calls.
    pub fn needs_teardown(&self, transport_connected: bool) -> (t: bool)
        ensures
            t == transport_connected,
    {
        transport_connected
    }

    /// The process exit status: non-zero exactly when the session was
    /// terminated by exhausted reconnects or a fatal subscribe failure.
    pub fn exit_code(&self) -> (c: i32)
        ensures
            self.state is Terminated ==> c == 1,
            !(self.state is Terminated) ==> c == 0,
    {
        if matches!(self.state, ConnState::Terminated) {
            1
        } else {
            0
        }
    }
}

/// A spec-level inbound item: `Some((topic, payload))` for a message,
/// `None` for the disconnect sentinel, paired with what the transport
/// reports about its connectivity when the item arrives.
pub type ItemV = (Option<(Seq<char>, Seq<char>)>, bool);

/// The topic and payload of a spec-level item; meaningful for messages.
pub open spec fn message_of(it: ItemV) -> (Seq<char>, Seq<char>) {
    match it.0 {
        Some(tp) => tp,
        None => (Seq::empty(), Seq::empty()),
    }
}

/// A run of the consumption loop over a sequence of inbound items: the
/// session it ends in and the messages it logs, in order. Processing stops
/// as soon as the session leaves `Connected` (a genuine disconnect hands
/// control to the reconnect protocol).
pub open spec fn run_items(s: Session, items: Seq<ItemV>) -> (Session, Seq<(Seq<char>, Seq<char>)>)
    decreases items.len(),
{
    if items.len() == 0 || !(s.state is Connected) {
        (s, Seq::empty())
    } else {
        let s1 = spec_on_item(s, items[0].0 is Some, items[0].1);
        let rest = run_items(s1, items.drop_first());
        if items[0].0 is Some {
            (rest.0, seq![message_of(items[0])] + rest.1)
        } else {
            (rest.0, rest.1)
        }
    }
}

/// A run of the reconnect protocol over the outcomes of successive
/// attempts: the session it ends in. It stops at the first success or when
/// the budget of attempts is spent.
pub open spec fn run_reconnect(s: Session, outcomes: Seq<bool>) -> Session
    decreases outcomes.len(),
{
    if outcomes.len() == 0 || !(s.state is Connecting) {
        s
    } else {
        run_reconnect(spec_on_reconnect_attempt(s, outcomes[0]), outcomes.drop_first())
    }
}

/// For every sequence of inbound items with no disconnect sentinel, the
/// consumption loop logs exactly one message per item, in arrival order,
/// and the session is left exactly as it began.
pub proof fn lemma_no_disconnect_logs_every_message(s: Session, items: Seq<ItemV>)
    requires
        s.inv(),
        s.state is Connected,
        forall|i: int| 0 <= i < items.len() ==> (#[trigger] items[i]).0 is Some,
    ensures
        run_items(s, items).0 == s,
        run_items(s, items).1 =~= items.map_values(|it: ItemV| message_of(it)),
    decreases items.len(),
{
    if items.len() > 0 {
        let s1 = spec_on_item(s, items[0].0 is Some, items[0].1);
        assert(s1 == s);
        lemma_no_disconnect_logs_every_message(s, items.drop_first());
    }
}

/// A disconnect sentinel that arrives while the transport still reports the
/// session as connected is a no-op: the session is unchanged, so no
/// reconnect begins and the following items are consumed as before.
pub proof fn lemma_spurious_sentinel_is_noop(s: Session, items: Seq<ItemV>)
    requires
        s.inv(),
        s.state is Connected,
    ensures
        spec_on_item(s, false, true) == s,
        run_items(s, seq![(None::<(Seq<char>, Seq<char>)>, true)] + items) == run_items(s, items),
{
    let pre = seq![(None::<(Seq<char>, Seq<char>)>, true)] + items;
    assert(pre.drop_first() =~= items);
    assert(run_items(s, pre).1 =~= run_items(s, items).1);
}

/// A genuine disconnect (the sentinel while the transport reports the
/// session as lost) starts the reconnect protocol with the policy's full
/// budget. The protocol ends in `Connected` exactly when one of the first
/// `max_attempts` attempts succeeds — consumption then resumes with the
/// subscription still held — and in `Terminated` exactly when all of them
/// fail, which ends the loop.
pub proof fn lemma_reconnect_bounded(s: Session, outcomes: Seq<bool>)
    requires
        s.inv(),
        s.state is Connected,
        outcomes.len() >= s.policy.max_attempts,
    ensures
        ({
            let started = spec_on_item(s, false, false);
            let fin = run_reconnect(started, outcomes);
            &&& started.state is Connecting
            &&& started.attempts_left == s.policy.max_attempts
            &&& (fin.state is Connected <==> exists|i: int|
                0 <= i < s.policy.max_attempts && outcomes[i])
            &&& (fin.state is Terminated <==> forall|i: int|
                0 <= i < s.policy.max_attempts ==> !outcomes[i])
            &&& fin.subscribed == s.subscribed
            &&& fin.policy == s.policy
        }),
{
    let started = spec_on_item(s, false, false);
    lemma_reconnect_run(started, outcomes);
}

/// The reconnect protocol from any mid-protocol session: it ends in
/// `Connected` exactly when one of the remaining attempts succeeds, in
/// `Terminated` exactly when all of them fail, and it never touches the
/// subscription flag or the policy.
pub proof fn lemma_reconnect_run(s: Session, outcomes: Seq<bool>)
    requires
        s.inv(),
        s.state is Connecting,
        outcomes.len() >= s.attempts_left,
    ensures
        ({
            let fin = run_reconnect(s, outcomes);
            &&& (fin.state is Connected <==> exists|i: int| 0 <= i < s.attempts_left && outcomes[i])
            &&& (fin.state is Terminated <==> forall|i: int|
                0 <= i < s.attempts_left ==> !outcomes[i])
            &&& fin.subscribed == s.subscribed
            &&& fin.policy == s.policy
        }),
    decreases outcomes.len(),
{
    let s1 = spec_on_reconnect_attempt(s, outcomes[0]);
    let tail = outcomes.drop_first();
    if outcomes[0] {
        assert(run_reconnect(s, outcomes) == s1);
    } else if s.attempts_left > 1 {
        lemma_reconnect_run(s1, tail);
        let fin = run_reconnect(s, outcomes);
        assert(fin == run_reconnect(s1, tail));
        assert(fin.state is Connected <==> exists|j: int|
            0 <= j < s1.attempts_left && tail[j]);
        if fin.state is Connected {
            let j = choose|j: int| 0 <= j < s1.attempts_left && tail[j];
            assert(outcomes[j + 1]);
        }
        if exists|i: int| 0 <= i < s.attempts_left && outcomes[i] {
            let i = choose|i: int| 0 <= i < s.attempts_left && outcomes[i];
            assert(i >= 1 && tail[i - 1]);
        }
    } else {
        assert(run_reconnect(s, outcomes) == s1);
    }
}

/// A log-sink failure on one message cannot disturb the session: after a
/// message is logged, the sink's outcome — success or failure — leaves the
/// session exactly where it was, still connected, so the next message is
/// processed and logged from the very same state.
pub proof fn lemma_sink_failure_isolated(s: Session, conn1: bool, sink_ok: bool, conn2: bool)
    requires
        s.inv(),
        s.state is Connected,
    ensures
        ({
            let after_first = spec_on_sink_result(spec_on_item(s, true, conn1), sink_ok);
            &&& after_first == s
            &&& after_first.state is Connected
            &&& spec_on_item(after_first, true, conn2) == s
        }),
{
}

} // verus!
