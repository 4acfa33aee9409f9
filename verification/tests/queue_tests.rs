use audiocrab::queue::{PlaybackQueue, QueueMode};

#[test]
fn test_advance_wraps() {
    let ids = vec!["id1".to_string(), "id2".to_string(), "id3".to_string()];
    let mut q = PlaybackQueue::new_sorted(ids, QueueMode::Ascending);

    q.advance();
    assert_eq!(q.current_id(), Some("id2"));
    q.advance();
    assert_eq!(q.current_id(), Some("id3"));
    q.advance();
    assert_eq!(q.current_id(), Some("id1")); // wraps
}

#[test]
fn test_previous_wraps() {
    let ids = vec!["id1".to_string(), "id2".to_string(), "id3".to_string()];
    let mut q = PlaybackQueue::new_sorted(ids, QueueMode::Ascending);

    q.previous();
    assert_eq!(q.current_id(), Some("id3")); // wraps
}

fn ids(names: &[&str]) -> Vec<String> {
    names.iter().map(|s| s.to_string()).collect()
}

#[test]
fn next_and_peek_wrap_around() {
    let mut q = PlaybackQueue::new_sorted(ids(&["a", "b", "c"]), QueueMode::Descending);
    assert_eq!(q.next_id(), Some("b"));
    assert_eq!(q.peek_ahead(0), Some("a"));
    assert_eq!(q.peek_ahead(1), Some("b"));
    assert_eq!(q.peek_ahead(5), Some("c"));
    assert_eq!(q.peek_ahead(usize::MAX), Some("a"));
    q.set_cursor(2);
    assert_eq!(q.next_id(), Some("a"));
    assert_eq!(q.peek_ahead(usize::MAX), Some("c"));
}

#[test]
fn advance_then_previous_returns() {
    let mut q = PlaybackQueue::new_sorted(ids(&["a", "b", "c", "d"]), QueueMode::Ascending);
    for start in 0..4 {
        q.set_cursor(start);
        q.advance();
        q.previous();
        assert_eq!(q.cursor(), start);
        q.previous();
        q.advance();
        assert_eq!(q.cursor(), start);
    }
    q.set_cursor(1);
    for _ in 0..q.len() {
        q.advance();
    }
    assert_eq!(q.cursor(), 1);
}

#[test]
fn empty_queue_has_no_current_track() {
    let mut q = PlaybackQueue::new_sorted(Vec::new(), QueueMode::Ascending);
    assert!(q.is_empty());
    assert_eq!(q.current_id(), None);
    assert_eq!(q.next_id(), None);
    assert_eq!(q.peek_ahead(3), None);
    q.advance();
    q.previous();
    q.set_cursor(0);
    assert_eq!(q.cursor(), 0);
}

#[test]
fn set_cursor_ignores_positions_past_the_end() {
    let mut q = PlaybackQueue::new_sorted(ids(&["a", "b"]), QueueMode::Ascending);
    q.set_cursor(1);
    assert_eq!(q.current_id(), Some("b"));
    q.set_cursor(2);
    assert_eq!(q.cursor(), 1);
}

#[test]
fn set_current_id_selects_first_occurrence() {
    let mut q = PlaybackQueue::new_sorted(ids(&["a", "b", "c", "b"]), QueueMode::Ascending);
    q.set_current_id("b");
    assert_eq!(q.cursor(), 1);
    q.set_current_id("missing");
    assert_eq!(q.cursor(), 1);
    q.set_current_id("c");
    assert_eq!(q.current_id(), Some("c"));
}

#[test]
fn shuffled_queue_keeps_order_and_seed() {
    let mut q = PlaybackQueue::new_shuffle_ordered(ids(&["x", "y"]), 42);
    assert_eq!(q.mode(), QueueMode::Shuffle);
    assert_eq!(q.seed(), Some(42));
    assert_eq!(q.current_id(), Some("x"));
    q.advance();
    q.reshuffle_ordered(ids(&["y", "x", "z"]), 7);
    assert_eq!(q.cursor(), 0);
    assert_eq!(q.len(), 3);
    assert_eq!(q.seed(), Some(7));
    assert_eq!(q.current_id(), Some("y"));
}

#[test]
fn reshuffle_leaves_sorted_queue_alone() {
    let mut q = PlaybackQueue::new_sorted(ids(&["a", "b"]), QueueMode::Ascending);
    q.advance();
    q.reshuffle_ordered(ids(&["z"]), 9);
    assert_eq!(q.len(), 2);
    assert_eq!(q.cursor(), 1);
    assert_eq!(q.seed(), None);
    assert_eq!(q.mode(), QueueMode::Ascending);
}
