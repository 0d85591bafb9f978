use vstd::prelude::*;
use crate::game::GameState;

verus! {

/// Where a connection's writer stands.
#[derive(Clone, Copy, Debug, PartialEq, Eq, Structural)]
pub enum WriterPhase {
    /// Subscribing to the broadcast channel; nothing is sent before this is done.
    Subscribing,
    /// Subscribed; the current snapshot is being read.
    Fetching,
    /// A message is being sent to the client.
    Sending,
    /// Waiting for the next broadcast message.
    Waiting,
    /// The writer has stopped.
    Finished,
}

/// What the store or the client connection reported to the writer.
#[derive(Debug)]
pub enum WriterEvent {
    /// The subscription to the broadcast channel is in place.
    Subscribed,
    /// The current counters, read after subscribing.
    Snapshot(GameState),
    /// The last message reached the client.
    Sent,
    /// Sending to the client failed.
    SendFailed,
    /// A message arrived on the broadcast channel.
    Broadcast(String),
    /// The subscription or a store read failed.
    StoreFailed,
}

/// What the writer asks its driver to do next.
#[derive(Debug)]
pub enum WriterAction {
    /// Subscribe to the broadcast channel.
    Subscribe,
    /// Read the current counters.
    FetchSnapshot,
    /// Send this snapshot to the client.
    SendSnapshot(GameState),
    /// Send this broadcast message to the client as it is.
    Relay(String),
    /// Wait for the next broadcast message.
    AwaitBroadcast,
    /// End the writer.
    Stop,
}

/// The writer's transition: its next phase and action, given its phase and
/// what it was told. Anything that does not fit the phase ends the writer.
pub open spec fn writer_next(phase: WriterPhase, event: WriterEvent) -> (WriterPhase, WriterAction) {
    match (phase, event) {
        (WriterPhase::Subscribing, WriterEvent::Subscribed) => (
            WriterPhase::Fetching,
            WriterAction::FetchSnapshot,
        ),
        (WriterPhase::Fetching, WriterEvent::Snapshot(s)) => (
            WriterPhase::Sending,
            WriterAction::SendSnapshot(s),
        ),
        (WriterPhase::Sending, WriterEvent::Sent) => (
            WriterPhase::Waiting,
            WriterAction::AwaitBroadcast,
        ),
        (WriterPhase::Waiting, WriterEvent::Broadcast(payload)) => (
            WriterPhase::Sending,
            WriterAction::Relay(payload),
        ),
        _ => (WriterPhase::Finished, WriterAction::Stop),
    }
}

/// The writer half of one connection.
#[derive(Debug)]
pub struct Writer {
    pub phase: WriterPhase,
}

impl Writer {
    /// A writer that starts by subscribing to the broadcast channel.
    pub fn start() -> (r: (Writer, WriterAction))
        ensures
            r.0.phase == WriterPhase::Subscribing,
            r.1 is Subscribe,
    {
        (Writer { phase: WriterPhase::Subscribing }, WriterAction::Subscribe)
    }

    /// Takes in one event and moves on.
    pub fn step(&mut self, event: WriterEvent) -> (a: WriterAction)
        ensures
            (final(self).phase, a) == writer_next(old(self).phase, event),
    {
        let (phase, action) = match (self.phase, event) {
            (WriterPhase::Subscribing, WriterEvent::Subscribed) => (
                WriterPhase::Fetching,
                WriterAction::FetchSnapshot,
            ),
            (WriterPhase::Fetching, WriterEvent::Snapshot(s)) => (
                WriterPhase::Sending,
                WriterAction::SendSnapshot(s),
            ),
            (WriterPhase::Sending, WriterEvent::Sent) => (
                WriterPhase::Waiting,
                WriterAction::AwaitBroadcast,
            ),
            (WriterPhase::Waiting, WriterEvent::Broadcast(payload)) => (
                WriterPhase::Sending,
                WriterAction::Relay(payload),
            ),
            _ => (WriterPhase::Finished, WriterAction::Stop),
        };
        self.phase = phase;
        action
    }
}

/// The phase reached and the actions asked for when the events are taken in,
/// one by one, from `phase`.
pub open spec fn writer_run(phase: WriterPhase, events: Seq<WriterEvent>) -> (WriterPhase, Seq<WriterAction>)
    decreases events.len(),
{
    if events.len() == 0 {
        (phase, Seq::empty())
    } else {
        let prev = writer_run(phase, events.drop_last());
        let next = writer_next(prev.0, events.last());
        (next.0, prev.1.push(next.1))
    }
}

/// Whether an action sends something to the client.
pub open spec fn is_send(a: WriterAction) -> bool {
    a is SendSnapshot || a is Relay
}

/// A broadcast message is relayed as it arrived, with nothing changed.
pub proof fn lemma_relay_verbatim(phase: WriterPhase, payload: String)
    ensures
        phase == WriterPhase::Waiting ==> writer_next(phase, WriterEvent::Broadcast(payload)).1
            == WriterAction::Relay(payload),
        writer_next(phase, WriterEvent::Broadcast(payload)).1 is Relay ==> writer_next(
            phase,
            WriterEvent::Broadcast(payload),
        ).1->Relay_0 == payload,
{
}

/// How many actions of a sequence send a snapshot.
pub open spec fn count_snapshots(actions: Seq<WriterAction>) -> nat
    decreases actions.len(),
{
    if actions.len() == 0 {
        0
    } else {
        count_snapshots(actions.drop_last()) + if actions.last() is SendSnapshot {
            1nat
        } else {
            0nat
        }
    }
}

/// How many actions of a sequence send anything to the client.
pub open spec fn count_sends(actions: Seq<WriterAction>) -> nat
    decreases actions.len(),
{
    if actions.len() == 0 {
        0
    } else {
        count_sends(actions.drop_last()) + if is_send(actions.last()) { 1nat } else { 0nat }
    }
}

/// Whether every relayed message of a sequence comes after a snapshot send.
pub open spec fn snapshot_leads(actions: Seq<WriterAction>) -> bool
    decreases actions.len(),
{
    if actions.len() == 0 {
        true
    } else {
        snapshot_leads(actions.drop_last()) && (actions.last() is Relay ==> count_snapshots(
            actions.drop_last(),
        ) > 0)
    }
}

/// A snapshot is sent only right after it was read, and it is read only once
/// the subscription is in place.
pub proof fn lemma_snapshot_after_subscription(phase: WriterPhase, event: WriterEvent)
    ensures
        writer_next(phase, event).1 is SendSnapshot ==> (phase == WriterPhase::Fetching
            && event is Snapshot && writer_next(phase, event).1->SendSnapshot_0
            == event->Snapshot_0),
        writer_next(phase, event).0 == WriterPhase::Fetching ==> (phase
            == WriterPhase::Subscribing && event is Subscribed),
{
}

/// On every run of a fresh writer, nothing is sent before the snapshot: the
/// first message that reaches the client is the one snapshot, and every
/// relayed broadcast comes after it.
pub proof fn lemma_snapshot_first(events: Seq<WriterEvent>)
    ensures
        snapshot_leads(writer_run(WriterPhase::Subscribing, events).1),
        count_snapshots(writer_run(WriterPhase::Subscribing, events).1) <= 1,
        (writer_run(WriterPhase::Subscribing, events).0 == WriterPhase::Subscribing
            || writer_run(WriterPhase::Subscribing, events).0 == WriterPhase::Fetching)
            ==> count_sends(writer_run(WriterPhase::Subscribing, events).1) == 0
            && count_snapshots(writer_run(WriterPhase::Subscribing, events).1) == 0,
        (writer_run(WriterPhase::Subscribing, events).0 == WriterPhase::Sending
            || writer_run(WriterPhase::Subscribing, events).0 == WriterPhase::Waiting)
            ==> count_snapshots(writer_run(WriterPhase::Subscribing, events).1) == 1,
    decreases events.len(),
{
    if events.len() > 0 {
        lemma_snapshot_first(events.drop_last());
        let prev = writer_run(WriterPhase::Subscribing, events.drop_last());
        let acts = prev.1.push(writer_next(prev.0, events.last()).1);
        assert(acts.drop_last() =~= prev.1);
    }
}

} // verus!
