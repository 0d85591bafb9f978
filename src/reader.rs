use vstd::prelude::*;
use crate::game::{Direction, GameState};
use crate::limiter::{admitted, EXPIRY_SECS, admits, stale_before, window_start};
use crate::request::{classify, intent_of, Intent, PullRequest};

verus! {

/// Where a connection's reader stands.
#[derive(Clone, Copy, Debug, PartialEq, Eq, Structural)]
pub enum ReaderPhase {
    /// The shared counters are being created where absent.
    Initializing,
    /// Waiting for the next client message.
    Idle,
    /// A pull arrived at second `now`; its window is being counted.
    Checking { requested: Option<Direction>, now: u64 },
    /// The pull was admitted and is being recorded in the limiter.
    Recording { requested: Option<Direction> },
    /// The counters are being incremented for a pull in `direction`.
    Applying { direction: Direction },
    /// The position is now `position`; both pull counters are being re-read.
    Fetching { position: i64 },
    /// The new snapshot is being published.
    Publishing,
    /// The reader has stopped.
    Finished,
}

/// What the store or the client reported to the reader.
#[derive(Debug)]
pub enum ReaderEvent {
    /// The counters were created where absent.
    Initialized,
    /// A client message arrived at second `now`; `request` is what could be
    /// read from it, if anything.
    Message { request: Option<PullRequest>, now: u64 },
    /// The client's channel closed or failed.
    Closed,
    /// The limiter holds `count` entries in the pull's window.
    RecentCount(i64),
    /// The pull was recorded in the limiter.
    Recorded,
    /// Both counters were incremented; the position is now `position`.
    Applied { position: i64 },
    /// Fresh values of the pull counters, and the number of connected users.
    Counters { left_pulls: i64, right_pulls: i64, active_users: usize },
    /// The snapshot was published.
    Published,
    /// A store operation failed.
    StoreFailed,
}

/// What the reader asks its driver to do next.
#[derive(Clone, Copy, Debug, PartialEq, Eq, Structural)]
pub enum ReaderAction {
    /// Create each shared counter at zero where it does not exist.
    InitializeCounters,
    /// Read the next client message.
    AwaitMessage,
    /// Count the limiter entries with a second in `from..=to`.
    CountRecent { from: u64, to: u64 },
    /// Record second `at`, remove entries before `stale_before`, and let the
    /// record expire `expire_secs` from now.
    Record { at: u64, stale_before: u64, expire_secs: u64 },
    /// Increment the direction's pull counter by one, then the position by the
    /// direction's step.
    Apply { direction: Direction },
    /// Re-read both pull counters.
    FetchCounters,
    /// Publish this snapshot to every writer.
    Publish(GameState),
    /// End the reader.
    Stop,
}

/// The reader's transition: its next phase and action, given its phase and
/// what it was told. Anything that does not fit the phase ends the reader.
pub open spec fn reader_next(phase: ReaderPhase, event: ReaderEvent) -> (ReaderPhase, ReaderAction) {
    match (phase, event) {
        (ReaderPhase::Initializing, ReaderEvent::Initialized) => (
            ReaderPhase::Idle,
            ReaderAction::AwaitMessage,
        ),
        (ReaderPhase::Idle, ReaderEvent::Message { request, now }) => match request {
            Some(m) => match intent_of(m.action@, m.direction@) {
                Intent::Pull(direction) => (
                    ReaderPhase::Checking { requested: direction, now },
                    ReaderAction::CountRecent {
                        from: if now == 0 { 0 } else { (now - 1) as u64 },
                        to: now,
                    },
                ),
                Intent::Ignore => (ReaderPhase::Idle, ReaderAction::AwaitMessage),
            },
            None => (ReaderPhase::Idle, ReaderAction::AwaitMessage),
        },
        (ReaderPhase::Checking { requested: direction, now }, ReaderEvent::RecentCount(count)) => {
            if admitted(count as int) {
                (
                    ReaderPhase::Recording { requested: direction },
                    ReaderAction::Record {
                        at: now,
                        stale_before: if now >= 2 { (now - 2) as u64 } else { 0 },
                        expire_secs: EXPIRY_SECS,
                    },
                )
            } else {
                (ReaderPhase::Idle, ReaderAction::AwaitMessage)
            }
        },
        (ReaderPhase::Recording { requested: direction }, ReaderEvent::Recorded) => match direction {
            Some(d) => (ReaderPhase::Applying { direction: d }, ReaderAction::Apply { direction: d }),
            None => (ReaderPhase::Idle, ReaderAction::AwaitMessage),
        },
        (ReaderPhase::Applying { direction }, ReaderEvent::Applied { position }) => (
            ReaderPhase::Fetching { position },
            ReaderAction::FetchCounters,
        ),
        (
            ReaderPhase::Fetching { position },
            ReaderEvent::Counters { left_pulls, right_pulls, active_users },
        ) => (
            ReaderPhase::Publishing,
            ReaderAction::Publish(GameState { position, left_pulls, right_pulls, active_users }),
        ),
        (ReaderPhase::Publishing, ReaderEvent::Published) => (
            ReaderPhase::Idle,
            ReaderAction::AwaitMessage,
        ),
        _ => (ReaderPhase::Finished, ReaderAction::Stop),
    }
}

/// The phase reached and the actions asked for when the events are taken in,
/// one by one, from `phase`.
pub open spec fn reader_run(phase: ReaderPhase, events: Seq<ReaderEvent>) -> (ReaderPhase, Seq<ReaderAction>)
    decreases events.len(),
{
    if events.len() == 0 {
        (phase, Seq::empty())
    } else {
        let prev = reader_run(phase, events.drop_last());
        let next = reader_next(prev.0, events.last());
        (next.0, prev.1.push(next.1))
    }
}

/// How many actions of a sequence increment the counters.
pub open spec fn count_applies(actions: Seq<ReaderAction>) -> nat
    decreases actions.len(),
{
    if actions.len() == 0 {
        0
    } else {
        count_applies(actions.drop_last()) + if actions.last() is Apply { 1nat } else { 0nat }
    }
}

/// How many actions of a sequence publish a snapshot.
pub open spec fn count_publishes(actions: Seq<ReaderAction>) -> nat
    decreases actions.len(),
{
    if actions.len() == 0 {
        0
    } else {
        count_publishes(actions.drop_last()) + if actions.last() is Publish { 1nat } else { 0nat }
    }
}

/// Whether a pull has been applied to the counters and not yet published.
pub open spec fn in_flight(phase: ReaderPhase) -> bool {
    phase is Applying || phase is Fetching
}

/// A snapshot is published only right after both counters were re-read, and it
/// carries the position that the increment returned and the counters as read.
pub proof fn lemma_publish_carries_fresh_counters(phase: ReaderPhase, event: ReaderEvent)
    ensures
        reader_next(phase, event).1 is Publish ==> (phase is Fetching && event is Counters
            && reader_next(phase, event).1->Publish_0 == (GameState {
            position: phase->Fetching_position,
            left_pulls: event->Counters_left_pulls,
            right_pulls: event->Counters_right_pulls,
            active_users: event->Counters_active_users,
        })),
        reader_next(phase, event).1 is Apply ==> (phase is Recording && event is Recorded
            && phase->Recording_requested == Some(reader_next(phase, event).1->Apply_direction)),
{
}

/// The counters are created once per reader, at its start: no transition asks
/// for it again, so a running reader never re-creates them.
pub proof fn lemma_initializes_only_at_start(phase: ReaderPhase, event: ReaderEvent)
    ensures
        reader_next(phase, event).1 != ReaderAction::InitializeCounters,
        reader_next(phase, event).0 != ReaderPhase::Initializing,
{
}

/// Every accepted pull is published exactly once: along any run that starts
/// before any pull, the snapshots published match the increments applied, one
/// for one, but for the one pull in flight; a run that is back to waiting for
/// messages has published exactly as many snapshots as it applied pulls.
pub proof fn lemma_one_publish_per_pull(start: ReaderPhase, events: Seq<ReaderEvent>)
    requires
        start == ReaderPhase::Initializing || start == ReaderPhase::Idle,
    ensures
        count_publishes(reader_run(start, events).1) <= count_applies(reader_run(start, events).1),
        count_applies(reader_run(start, events).1) <= count_publishes(reader_run(start, events).1) + 1,
        !(reader_run(start, events).0 is Finished) ==> count_applies(reader_run(start, events).1)
            == count_publishes(reader_run(start, events).1) + if in_flight(reader_run(start, events).0) {
            1nat
        } else {
            0nat
        },
    decreases events.len(),
{
    if events.len() > 0 {
        lemma_one_publish_per_pull(start, events.drop_last());
        let prev = reader_run(start, events.drop_last());
        let acts = prev.1.push(reader_next(prev.0, events.last()).1);
        assert(acts.drop_last() =~= prev.1);
    }
}

/// The reader half of one connection.
#[derive(Debug)]
pub struct Reader {
    pub phase: ReaderPhase,
}

impl Reader {
    /// A reader that starts by creating the shared counters where absent.
    pub fn start() -> (r: (Reader, ReaderAction))
        ensures
            r.0.phase == ReaderPhase::Initializing,
            r.1 == ReaderAction::InitializeCounters,
    {
        (Reader { phase: ReaderPhase::Initializing }, ReaderAction::InitializeCounters)
    }

    /// Takes in one event and moves on.
    pub fn step(&mut self, event: ReaderEvent) -> (a: ReaderAction)
        ensures
            (final(self).phase, a) == reader_next(old(self).phase, event),
    {
        let (phase, action) = match (self.phase, event) {
            (ReaderPhase::Initializing, ReaderEvent::Initialized) => (
                ReaderPhase::Idle,
                ReaderAction::AwaitMessage,
            ),
            (ReaderPhase::Idle, ReaderEvent::Message { request, now }) => match classify(&request) {
                Intent::Pull(direction) => (
                    ReaderPhase::Checking { requested: direction, now },
                    ReaderAction::CountRecent { from: window_start(now), to: now },
                ),
                Intent::Ignore => (ReaderPhase::Idle, ReaderAction::AwaitMessage),
            },
            (ReaderPhase::Checking { requested: direction, now }, ReaderEvent::RecentCount(count)) => {
                if admits(count) {
                    (
                        ReaderPhase::Recording { requested: direction },
                        ReaderAction::Record {
                            at: now,
                            stale_before: stale_before(now),
                            expire_secs: EXPIRY_SECS,
                        },
                    )
                } else {
                    (ReaderPhase::Idle, ReaderAction::AwaitMessage)
                }
            },
            (ReaderPhase::Recording { requested: direction }, ReaderEvent::Recorded) => match direction {
                Some(d) => (ReaderPhase::Applying { direction: d }, ReaderAction::Apply { direction: d }),
                None => (ReaderPhase::Idle, ReaderAction::AwaitMessage),
            },
            (ReaderPhase::Applying { direction: _ }, ReaderEvent::Applied { position }) => (
                ReaderPhase::Fetching { position },
                ReaderAction::FetchCounters,
            ),
            (
                ReaderPhase::Fetching { position },
                ReaderEvent::Counters { left_pulls, right_pulls, active_users },
            ) => (
                ReaderPhase::Publishing,
                ReaderAction::Publish(GameState { position, left_pulls, right_pulls, active_users }),
            ),
            (ReaderPhase::Publishing, ReaderEvent::Published) => (
                ReaderPhase::Idle,
                ReaderAction::AwaitMessage,
            ),
            _ => (ReaderPhase::Finished, ReaderAction::Stop),
        };
        self.phase = phase;
        action
    }
}

} // verus!
