use abcdeez_app::services::adaptive::{get_context_sequence, get_hint, get_jump_sequence, get_next_item};
use abcdeez_app::services::sync::{
    already_syncing, no_client, should_start_background_sync, storage_key_for_update, BatchOutcome, SyncQueue,
    SyncRun, MAX_QUEUE_SIZE, SYNC_BATCH_SIZE,
};
use abcdeez_app::services::tracking::{
    key_timing, mouse_button_code, KeyTiming, MouseButton, PauseMetrics, HESITATION_THRESHOLD_MS,
    KEYSTROKE_WINDOW_MS, PAUSE_THRESHOLD_MS,
};
use abcdeez_app::services::websocket::{replace_all_str, socket_step, websocket_url, SocketAction, SocketEvent};

#[test]
fn hints_by_level() {
    assert_eq!(get_hint(0), "Take your time and think about the pattern.");
    assert_eq!(get_hint(1), "Consider what comes before and after in the sequence.");
    assert_eq!(get_hint(2), "Try to recall the complete sequence from the beginning.");
    assert_eq!(get_hint(3), "The answer is part of the pattern you're learning.");
    assert_eq!(get_hint(usize::MAX), "The answer is part of the pattern you're learning.");
}

#[test]
fn next_letters() {
    assert_eq!(get_next_item("A", 0).as_deref(), Some("A"));
    assert_eq!(get_next_item("A", 2).as_deref(), Some("C"));
    assert_eq!(get_next_item("K", 2).as_deref(), Some("M"));
    assert_eq!(get_next_item("L", 2), None);
    assert_eq!(get_next_item("N", 0), None);
    assert_eq!(get_next_item("a", 1), None);
    assert_eq!(get_next_item("AB", 1), None);
    assert_eq!(get_next_item("", 1), None);
}

#[test]
fn context_around_an_item() {
    assert_eq!(get_context_sequence("B"), vec!["B", "?", "D"]);
    assert_eq!(get_context_sequence("M"), vec!["M", "?", "..."]);
    assert_eq!(get_context_sequence("zebra"), vec!["zebra", "?", "..."]);
}

#[test]
fn jump_sequences() {
    assert_eq!(get_jump_sequence("A", 2), vec!["A", "?", "E", "G"]);
    assert_eq!(get_jump_sequence("A", 4), vec!["A", "?", "I", "M"]);
    assert_eq!(get_jump_sequence("A", 5), vec!["A", "?", "K"]);
    assert_eq!(get_jump_sequence("J", 2), vec!["J", "?"]);
    assert_eq!(get_jump_sequence("M", 1), vec!["M"]);
    assert_eq!(get_jump_sequence("C", 0), vec!["C", "?", "C", "C"]);
    assert_eq!(get_jump_sequence("?", 1), vec!["?"]);
}

#[test]
fn queue_drops_oldest_when_full() {
    let mut q: SyncQueue<u32> = SyncQueue::new();
    for i in 0..(MAX_QUEUE_SIZE as u32 + 5) {
        q.add_to_queue(i);
    }
    assert_eq!(q.get_queue_size(), MAX_QUEUE_SIZE);
    assert_eq!(q.items.front(), Some(&5));
    assert_eq!(q.items.back(), Some(&(MAX_QUEUE_SIZE as u32 + 4)));
}

#[test]
fn batches_come_oldest_first() {
    let mut q: SyncQueue<u32> = SyncQueue::new();
    for i in 0..120 {
        q.add_to_queue(i);
    }
    let first = q.get_next_batch();
    assert_eq!(first.len(), SYNC_BATCH_SIZE);
    assert_eq!(first[0], 0);
    assert_eq!(first[49], 49);
    let second = q.get_next_batch();
    assert_eq!(second[0], 50);
    let third = q.get_next_batch();
    assert_eq!(third, (100..120).collect::<Vec<u32>>());
    assert_eq!(q.get_queue_size(), 0);
    assert!(q.get_next_batch().is_empty());
}

#[test]
fn stored_responses_fill_remaining_room() {
    let mut q: SyncQueue<u32> = SyncQueue::new();
    for i in 0..(MAX_QUEUE_SIZE as u32 - 3) {
        q.add_to_queue(i);
    }
    q.load_from_storage(vec![7000, 7001, 7002, 7003, 7004]);
    assert_eq!(q.get_queue_size(), MAX_QUEUE_SIZE);
    assert_eq!(q.items.back(), Some(&7002));
    q.clear_queue();
    assert_eq!(q.get_queue_size(), 0);
    q.load_from_storage(vec![1, 2, 3]);
    assert_eq!(q.items.iter().copied().collect::<Vec<u32>>(), vec![1, 2, 3]);
}

#[test]
fn sync_runs_count_batches() {
    let mut run = SyncRun::new();
    let r = run.record_batch(
        50,
        BatchOutcome::Pushed { synced_count: 48, failed_count: 2, errors: vec!["bad id".to_string()] },
    );
    assert_eq!(r, (48, true));
    let r = run.record_batch(20, BatchOutcome::Failed("timeout".to_string()));
    assert_eq!(r, (0, false));
    let result = run.finish(20);
    assert_eq!(result.synced_count, 48);
    assert_eq!(result.failed_count, 22);
    assert_eq!(result.remaining_count, 20);
    assert_eq!(result.errors, vec!["bad id".to_string(), "Batch sync failed: timeout".to_string()]);
}

#[test]
fn refused_runs() {
    let r = already_syncing(12);
    assert_eq!((r.synced_count, r.failed_count, r.remaining_count), (0, 0, 12));
    assert_eq!(r.errors, vec!["Sync already in progress".to_string()]);
    let r = no_client(3);
    assert_eq!(r.remaining_count, 3);
    assert_eq!(r.errors, vec!["No API client configured".to_string()]);
    assert!(should_start_background_sync(1, false));
    assert!(!should_start_background_sync(0, false));
    assert!(!should_start_background_sync(5, true));
}

#[test]
fn remote_update_keys() {
    assert_eq!(storage_key_for_update("learner_model"), Some("learner_model"));
    assert_eq!(storage_key_for_update("achievement"), Some("achievements"));
    assert_eq!(storage_key_for_update("session_summary"), Some("session_summaries"));
    assert_eq!(storage_key_for_update("unknown"), None);
}

#[test]
fn pauses_and_hesitations() {
    assert_eq!((PAUSE_THRESHOLD_MS, HESITATION_THRESHOLD_MS, KEYSTROKE_WINDOW_MS), (1000, 3000, 100));
    let mut m = PauseMetrics::new();
    m.track_pause(1000);
    assert_eq!((m.pause_count, m.hesitation_events), (0, 0));
    m.track_pause(1001);
    assert_eq!((m.pause_count, m.hesitation_events), (1, 0));
    m.track_pause(3001);
    assert_eq!((m.pause_count, m.hesitation_events), (2, 1));
    m.track_correction();
    m.track_correction();
    assert_eq!(m.correction_count, 2);
}

#[test]
fn key_event_timing() {
    assert_eq!(key_timing(None), KeyTiming { pause_ms: None, dwell_ms: 100 });
    assert_eq!(key_timing(Some(40)), KeyTiming { pause_ms: None, dwell_ms: 40 });
    assert_eq!(key_timing(Some(1000)), KeyTiming { pause_ms: None, dwell_ms: 100 });
    assert_eq!(key_timing(Some(2500)), KeyTiming { pause_ms: Some(2500), dwell_ms: 100 });
    assert_eq!(mouse_button_code(MouseButton::Left), 0);
    assert_eq!(mouse_button_code(MouseButton::Right), 1);
    assert_eq!(mouse_button_code(MouseButton::Middle), 2);
}

#[test]
fn websocket_addresses() {
    assert_eq!(websocket_url("http://localhost:3000"), "ws://localhost:3000");
    assert_eq!(websocket_url("https://api.example.com"), "wss://api.example.com");
    assert_eq!(websocket_url("localhost:3000"), "ws://localhost:3000");
    // Every occurrence is replaced, as `str::replace` does.
    assert_eq!(websocket_url("http://a/?next=http://b"), "ws://a/?next=ws://b");
    assert_eq!(websocket_url("HTTP://x"), "ws://HTTP://x");
    assert_eq!(replace_all_str("aaa", "aa", "b"), "ba");
    assert_eq!(replace_all_str("abc", "x", "y"), "abc");
}

#[test]
fn live_channel_decisions() {
    assert_eq!(socket_step(SocketEvent::Outgoing { disconnect: true }), SocketAction::Stop);
    assert_eq!(socket_step(SocketEvent::Outgoing { disconnect: false }), SocketAction::Send);
    assert_eq!(socket_step(SocketEvent::Text(Some(true))), SocketAction::Stop);
    assert_eq!(socket_step(SocketEvent::Text(Some(false))), SocketAction::Deliver);
    assert_eq!(socket_step(SocketEvent::Text(None)), SocketAction::Ignore);
    assert_eq!(socket_step(SocketEvent::Close), SocketAction::Stop);
    assert_eq!(socket_step(SocketEvent::Ping), SocketAction::Pong);
    assert_eq!(socket_step(SocketEvent::OtherFrame), SocketAction::Ignore);
    assert_eq!(socket_step(SocketEvent::ReadError), SocketAction::Stop);
    assert_eq!(socket_step(SocketEvent::Exhausted), SocketAction::Stop);
}
