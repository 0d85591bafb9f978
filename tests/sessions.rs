use tug_of_war::counters::CounterStore;
use tug_of_war::game::{Direction, GameState};
use tug_of_war::limiter::RateWindow;
use tug_of_war::reader::{Reader, ReaderAction, ReaderEvent, ReaderPhase};
use tug_of_war::request::PullRequest;
use tug_of_war::writer::{Writer, WriterAction, WriterEvent, WriterPhase};

fn request(action: &str, direction: &str) -> Option<PullRequest> {
    Some(PullRequest { action: action.to_string(), direction: direction.to_string() })
}

/// Plays the store for a reader until it waits for the next message again,
/// and returns the snapshots it published on the way.
fn drive(
    reader: &mut Reader,
    first: ReaderAction,
    store: &mut CounterStore,
    window: &mut RateWindow,
) -> Vec<GameState> {
    let mut published = Vec::new();
    let mut action = first;
    loop {
        let event = match action {
            ReaderAction::InitializeCounters => {
                store.initialize();
                ReaderEvent::Initialized
            }
            ReaderAction::AwaitMessage | ReaderAction::Stop => return published,
            ReaderAction::CountRecent { to, .. } => {
                ReaderEvent::RecentCount(window.count_recent(to) as i64)
            }
            ReaderAction::Record { at, .. } => {
                assert!(window.check_and_record(at));
                ReaderEvent::Recorded
            }
            ReaderAction::Apply { direction } => match store.apply_pull(direction) {
                Some(position) => ReaderEvent::Applied { position },
                None => ReaderEvent::StoreFailed,
            },
            ReaderAction::FetchCounters => ReaderEvent::Counters {
                left_pulls: store.left_pulls.unwrap(),
                right_pulls: store.right_pulls.unwrap(),
                active_users: 1,
            },
            ReaderAction::Publish(state) => {
                published.push(state);
                ReaderEvent::Published
            }
        };
        action = reader.step(event);
    }
}

fn send(
    reader: &mut Reader,
    message: Option<PullRequest>,
    now: u64,
    store: &mut CounterStore,
    window: &mut RateWindow,
) -> Vec<GameState> {
    let action = reader.step(ReaderEvent::Message { request: message, now });
    drive(reader, action, store, window)
}

#[test]
fn pull_right_then_left_broadcasts_each_state() {
    let mut store = CounterStore::empty();
    let mut window = RateWindow::new();
    let (mut reader, first) = Reader::start();
    assert!(drive(&mut reader, first, &mut store, &mut window).is_empty());
    assert_eq!(reader.phase, ReaderPhase::Idle);

    let out = send(&mut reader, request("pull", "right"), 500, &mut store, &mut window);
    assert_eq!(out, vec![GameState { position: 1, left_pulls: 0, right_pulls: 1, active_users: 1 }]);
    let out = send(&mut reader, request("pull", "left"), 500, &mut store, &mut window);
    assert_eq!(out, vec![GameState { position: 0, left_pulls: 1, right_pulls: 1, active_users: 1 }]);
}

#[test]
fn unknown_action_changes_nothing() {
    let mut store = CounterStore::empty();
    let mut window = RateWindow::new();
    let (mut reader, first) = Reader::start();
    drive(&mut reader, first, &mut store, &mut window);
    let before = store;
    let out = send(&mut reader, request("spin", "right"), 7, &mut store, &mut window);
    assert!(out.is_empty());
    assert_eq!(store, before);
    assert_eq!(window.count_recent(7), 0);
    assert_eq!(reader.phase, ReaderPhase::Idle);
}

#[test]
fn unreadable_message_is_dropped() {
    let mut store = CounterStore::empty();
    let mut window = RateWindow::new();
    let (mut reader, first) = Reader::start();
    drive(&mut reader, first, &mut store, &mut window);
    let out = send(&mut reader, None, 7, &mut store, &mut window);
    assert!(out.is_empty());
    assert_eq!(reader.phase, ReaderPhase::Idle);
}

#[test]
fn unknown_direction_is_rate_counted_but_not_applied() {
    let mut store = CounterStore::empty();
    let mut window = RateWindow::new();
    let (mut reader, first) = Reader::start();
    drive(&mut reader, first, &mut store, &mut window);
    let out = send(&mut reader, request("pull", "up"), 9, &mut store, &mut window);
    assert!(out.is_empty());
    assert_eq!(store, CounterStore { position: Some(0), left_pulls: Some(0), right_pulls: Some(0) });
    assert_eq!(window.count_recent(9), 1);
}

#[test]
fn reader_drops_pulls_over_the_limit() {
    let mut store = CounterStore::empty();
    let mut window = RateWindow::new();
    let (mut reader, first) = Reader::start();
    drive(&mut reader, first, &mut store, &mut window);
    let mut broadcasts = 0;
    for _ in 0..11 {
        broadcasts += send(&mut reader, request("pull", "right"), 42, &mut store, &mut window).len();
    }
    assert_eq!(broadcasts, 10);
    assert_eq!(store.position, Some(10));
    assert_eq!(store.right_pulls, Some(10));
}

#[test]
fn reader_count_request_covers_window() {
    let (mut reader, _) = Reader::start();
    assert_eq!(reader.step(ReaderEvent::Initialized), ReaderAction::AwaitMessage);
    let a = reader.step(ReaderEvent::Message { request: request("pull", "left"), now: 30 });
    assert_eq!(a, ReaderAction::CountRecent { from: 29, to: 30 });
    let a = reader.step(ReaderEvent::RecentCount(3));
    assert_eq!(a, ReaderAction::Record { at: 30, stale_before: 28, expire_secs: 10 });
    let a = reader.step(ReaderEvent::Recorded);
    assert_eq!(a, ReaderAction::Apply { direction: Direction::Left });
}

#[test]
fn reader_denied_count_goes_back_to_waiting() {
    let (mut reader, _) = Reader::start();
    reader.step(ReaderEvent::Initialized);
    reader.step(ReaderEvent::Message { request: request("pull", "left"), now: 30 });
    assert_eq!(reader.step(ReaderEvent::RecentCount(10)), ReaderAction::AwaitMessage);
    assert_eq!(reader.phase, ReaderPhase::Idle);
}

#[test]
fn reader_stops_on_store_failure() {
    let (mut reader, _) = Reader::start();
    assert_eq!(reader.step(ReaderEvent::StoreFailed), ReaderAction::Stop);
    assert_eq!(reader.phase, ReaderPhase::Finished);
    assert_eq!(reader.step(ReaderEvent::Initialized), ReaderAction::Stop);
}

#[test]
fn reader_stops_when_channel_closes() {
    let (mut reader, _) = Reader::start();
    reader.step(ReaderEvent::Initialized);
    assert_eq!(reader.step(ReaderEvent::Closed), ReaderAction::Stop);
    assert_eq!(reader.phase, ReaderPhase::Finished);
}

#[test]
fn failed_increment_ends_reader() {
    let mut store = CounterStore { position: Some(i64::MAX), left_pulls: Some(0), right_pulls: Some(0) };
    let mut window = RateWindow::new();
    let (mut reader, first) = Reader::start();
    drive(&mut reader, first, &mut store, &mut window);
    let out = send(&mut reader, request("pull", "right"), 1, &mut store, &mut window);
    assert!(out.is_empty());
    assert_eq!(reader.phase, ReaderPhase::Finished);
}

#[test]
fn writer_sends_snapshot_first_then_relays() {
    let (mut writer, first) = Writer::start();
    assert!(matches!(first, WriterAction::Subscribe));
    assert!(matches!(writer.step(WriterEvent::Subscribed), WriterAction::FetchSnapshot));
    let snap = GameState { position: -2, left_pulls: 5, right_pulls: 3, active_users: 4 };
    match writer.step(WriterEvent::Snapshot(snap)) {
        WriterAction::SendSnapshot(s) => assert_eq!(s, snap),
        other => panic!("unexpected {:?}", other),
    }
    assert!(matches!(writer.step(WriterEvent::Sent), WriterAction::AwaitBroadcast));
    let payload = "{\"position\":1,\"left_pulls\":0,\"right_pulls\":1,\"active_users\":1}".to_string();
    match writer.step(WriterEvent::Broadcast(payload.clone())) {
        WriterAction::Relay(p) => assert_eq!(p, payload),
        other => panic!("unexpected {:?}", other),
    }
    assert_eq!(writer.phase, WriterPhase::Sending);
}

#[test]
fn writer_does_not_relay_before_snapshot() {
    let (mut writer, _) = Writer::start();
    let a = writer.step(WriterEvent::Broadcast("x".to_string()));
    assert!(matches!(a, WriterAction::Stop));
    assert_eq!(writer.phase, WriterPhase::Finished);
}

#[test]
fn writer_stops_on_send_failure() {
    let (mut writer, _) = Writer::start();
    writer.step(WriterEvent::Subscribed);
    writer.step(WriterEvent::Snapshot(GameState::initial(0)));
    assert!(matches!(writer.step(WriterEvent::SendFailed), WriterAction::Stop));
    assert_eq!(writer.phase, WriterPhase::Finished);
}

#[test]
fn writer_stops_on_subscription_failure() {
    let (mut writer, _) = Writer::start();
    assert!(matches!(writer.step(WriterEvent::StoreFailed), WriterAction::Stop));
}
