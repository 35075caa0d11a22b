//! Tests of the queue data model: mutation semantics, cursor rules and
//! atomic failure.

use apple_music_kit::models::MusicKitTrack;
use apple_music_kit::queue::Queue;
use apple_music_kit::Error;

fn track(id: &str) -> MusicKitTrack {
    MusicKitTrack {
        id: id.to_string(),
        title: format!("title-{id}"),
        artist: "artist".to_string(),
        album: "album".to_string(),
        duration_ms: 180_000,
        artwork_url: None,
        is_explicit: false,
        is_playable: true,
    }
}

fn filled_queue(ids: &[&str], position: usize) -> Queue {
    let mut q = Queue::new();
    let tracks: Vec<MusicKitTrack> = ids.iter().map(|id| track(id)).collect();
    q.set(tracks, position).unwrap();
    q
}

#[test]
fn set_replaces_queue_and_puts_cursor_at_start_position() {
    let mut q = Queue::new();
    let r = q.set(vec![track("a"), track("b"), track("c")], 1);
    assert!(r.is_ok());
    assert_eq!(q.items.len(), 3);
    assert_eq!(q.position, 1);
    assert!(q.position < q.items.len());
}

#[test]
fn set_with_empty_tracks_resets_to_sentinel() {
    let mut q = filled_queue(&["a", "b"], 1);
    q.set(Vec::new(), 0).unwrap();
    assert_eq!(q.items.len(), 0);
    assert_eq!(q.position, 0);
}

#[test]
fn set_with_out_of_range_start_fails_and_leaves_queue_unchanged() {
    let mut q = filled_queue(&["a", "b"], 0);
    let before = q.clone();
    let r = q.set(vec![track("x"), track("y")], 2);
    match r {
        Err(Error::InvalidParameter(_)) => {}
        other => panic!("expected an invalid-parameter error, got {other:?}"),
    }
    assert_eq!(q, before);
}

#[test]
fn update_preserves_cursor_when_still_valid() {
    let mut q = filled_queue(&["a", "b", "c"], 1);
    q.update(vec![track("x"), track("y"), track("z"), track("w")]);
    assert_eq!(q.position, 1);
    assert_eq!(q.items.len(), 4);
}

#[test]
fn update_clamps_cursor_to_last_valid_index() {
    let mut q = filled_queue(&["a", "b", "c"], 2);
    q.update(vec![track("x"), track("y")]);
    assert_eq!(q.position, 1);
}

#[test]
fn update_with_empty_tracks_resets_to_sentinel() {
    let mut q = filled_queue(&["a", "b"], 1);
    q.update(Vec::new());
    assert_eq!(q.items.len(), 0);
    assert_eq!(q.position, 0);
}

#[test]
fn insert_at_keeps_length_track_and_relative_order() {
    let mut q = filled_queue(&["a", "b", "c"], 0);
    q.insert_at(track("t"), 1).unwrap();
    assert_eq!(q.items.len(), 4);
    assert_eq!(q.items[0].id, "a");
    assert_eq!(q.items[1].id, "t");
    assert_eq!(q.items[2].id, "b");
    assert_eq!(q.items[3].id, "c");
}

#[test]
fn insert_at_end_appends() {
    let mut q = filled_queue(&["a", "b"], 0);
    q.insert_at(track("t"), 2).unwrap();
    assert_eq!(q.items[2].id, "t");
    assert_eq!(q.items.len(), 3);
}

#[test]
fn insert_at_or_before_cursor_shifts_cursor_forward() {
    let mut q = filled_queue(&["a", "b", "c"], 1);
    q.insert_at(track("t"), 1).unwrap();
    assert_eq!(q.position, 2);
    assert_eq!(q.items[q.position].id, "b");
}

#[test]
fn insert_after_cursor_leaves_cursor_alone() {
    let mut q = filled_queue(&["a", "b", "c"], 1);
    q.insert_at(track("t"), 2).unwrap();
    assert_eq!(q.position, 1);
    assert_eq!(q.items[q.position].id, "b");
}

#[test]
fn insert_beyond_end_fails_and_leaves_queue_unchanged() {
    let mut q = filled_queue(&["a", "b"], 0);
    let before = q.clone();
    let r = q.insert_at(track("t"), 3);
    assert!(matches!(r, Err(Error::InvalidParameter(_))));
    assert_eq!(q, before);
}

#[test]
fn insert_into_empty_queue_puts_cursor_on_it() {
    let mut q = Queue::new();
    q.insert_at(track("t"), 0).unwrap();
    assert_eq!(q.items.len(), 1);
    assert_eq!(q.position, 0);
}

#[test]
fn insert_many_splices_span_in_order() {
    let mut q = filled_queue(&["a", "b"], 1);
    q.insert_many_at(vec![track("x"), track("y")], 1).unwrap();
    let ids: Vec<&str> = q.items.iter().map(|t| t.id.as_str()).collect();
    assert_eq!(ids, ["a", "x", "y", "b"]);
    assert_eq!(q.position, 3);
    assert_eq!(q.items[q.position].id, "b");
}

#[test]
fn insert_many_beyond_end_fails_atomically() {
    let mut q = filled_queue(&["a"], 0);
    let before = q.clone();
    let r = q.insert_many_at(vec![track("x"), track("y")], 2);
    assert!(matches!(r, Err(Error::InvalidParameter(_))));
    assert_eq!(q, before);
}

#[test]
fn remove_first_occurrence_only() {
    let mut q = filled_queue(&["a", "b", "a", "c"], 0);
    let removed = q.remove_by_id(&"a".to_string()).unwrap();
    assert_eq!(removed, 0);
    let ids: Vec<&str> = q.items.iter().map(|t| t.id.as_str()).collect();
    assert_eq!(ids, ["b", "a", "c"]);
}

#[test]
fn remove_absent_id_fails_and_queue_is_identical() {
    let mut q = filled_queue(&["a", "b"], 1);
    let before = q.clone();
    let r = q.remove_by_id(&"zz".to_string());
    assert!(matches!(r, Err(Error::QueueError(_))));
    assert_eq!(q, before);
}

#[test]
fn remove_before_cursor_shifts_cursor_back() {
    let mut q = filled_queue(&["a", "b", "c"], 2);
    q.remove_by_id(&"a".to_string()).unwrap();
    assert_eq!(q.position, 1);
    assert_eq!(q.items[q.position].id, "c");
}

#[test]
fn remove_at_cursor_keeps_cursor_on_following_track() {
    let mut q = filled_queue(&["a", "b", "c"], 1);
    q.remove_by_id(&"b".to_string()).unwrap();
    assert_eq!(q.position, 1);
    assert_eq!(q.items[q.position].id, "c");
}

#[test]
fn remove_last_track_under_cursor_clamps_cursor() {
    let mut q = filled_queue(&["a", "b"], 1);
    q.remove_by_id(&"b".to_string()).unwrap();
    assert_eq!(q.position, 0);
    assert_eq!(q.items[q.position].id, "a");
}

#[test]
fn remove_only_track_resets_to_sentinel() {
    let mut q = filled_queue(&["a"], 0);
    q.remove_by_id(&"a".to_string()).unwrap();
    assert_eq!(q.items.len(), 0);
    assert_eq!(q.position, 0);
}

#[test]
fn insert_next_lands_right_after_cursor() {
    let mut q = filled_queue(&["a", "b"], 0);
    q.insert_next(track("t"));
    let ids: Vec<&str> = q.items.iter().map(|t| t.id.as_str()).collect();
    assert_eq!(ids, ["a", "t", "b"]);
    assert_eq!(q.position, 0);
}

#[test]
fn insert_next_into_empty_queue() {
    let mut q = Queue::new();
    q.insert_next(track("t"));
    assert_eq!(q.items.len(), 1);
    assert_eq!(q.position, 0);
}

#[test]
fn insert_last_and_append_leave_cursor_alone() {
    let mut q = filled_queue(&["a", "b"], 1);
    q.insert_last(track("t"));
    q.append(vec![track("x"), track("y")]);
    let ids: Vec<&str> = q.items.iter().map(|t| t.id.as_str()).collect();
    assert_eq!(ids, ["a", "b", "t", "x", "y"]);
    assert_eq!(q.position, 1);
}

#[test]
fn advance_and_retreat_move_within_bounds() {
    let mut q = filled_queue(&["a", "b"], 0);
    assert!(q.advance());
    assert_eq!(q.position, 1);
    assert!(!q.advance());
    assert_eq!(q.position, 1);
    assert!(q.retreat());
    assert_eq!(q.position, 0);
    assert!(!q.retreat());
    assert_eq!(q.position, 0);
}

#[test]
fn skip_to_id_moves_cursor_to_first_match() {
    let mut q = filled_queue(&["a", "b", "c", "b"], 0);
    let j = q.skip_to_id(&"b".to_string()).unwrap();
    assert_eq!(j, 1);
    assert_eq!(q.position, 1);
}

#[test]
fn skip_to_absent_id_fails_and_leaves_cursor() {
    let mut q = filled_queue(&["a", "b"], 1);
    let r = q.skip_to_id(&"zz".to_string());
    assert!(matches!(r, Err(Error::InvalidTrackIdentifier(_))));
    assert_eq!(q.position, 1);
}

#[test]
fn current_returns_track_under_cursor() {
    let q = filled_queue(&["a", "b"], 1);
    assert_eq!(q.current().unwrap().id, "b");
    let empty = Queue::new();
    assert!(empty.current().is_none());
}
