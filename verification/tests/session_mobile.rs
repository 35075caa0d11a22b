//! Tests of the full-featured backend behind the command router: the
//! authorization lifecycle, queue commands, playback snapshots and events.

use apple_music_kit::auth::authorize_status_string;
use apple_music_kit::auth::state_after_authorize;
use apple_music_kit::auth::status_string;
use apple_music_kit::auth::AuthorizationState;
use apple_music_kit::auth::AuthorizeOutcome;
use apple_music_kit::models::progress_permille;
use apple_music_kit::models::repeat_mode_string;
use apple_music_kit::models::shuffle_mode_string;
use apple_music_kit::models::track_to_data;
use apple_music_kit::RepeatMode;
use apple_music_kit::ShuffleMode;
use apple_music_kit::Error;
use apple_music_kit::MusicKitEvent;
use apple_music_kit::MusicKitPlugin;
use apple_music_kit::MusicKitTrack;

fn song(id: &str, duration_ms: u64) -> MusicKitTrack {
    MusicKitTrack {
        id: id.to_string(),
        title: format!("song-{id}"),
        artist: "artist".to_string(),
        album: "album".to_string(),
        duration_ms,
        artwork_url: Some(format!("https://artwork.example/{id}")),
        is_explicit: false,
        is_playable: true,
    }
}

fn ready_session() -> MusicKitPlugin {
    let mut p = MusicKitPlugin::mobile(true);
    p.initialize().unwrap();
    p
}

#[test]
fn uninitialized_session_rejects_commands_with_not_initialized() {
    let mut p = MusicKitPlugin::mobile(true);
    assert_eq!(p.authorize().unwrap_err(), Error::NotInitialized);
    assert_eq!(p.get_queue().unwrap_err(), Error::NotInitialized);
    assert_eq!(p.play().unwrap_err(), Error::NotInitialized);
    assert_eq!(p.get_user_token().unwrap_err(), Error::NotInitialized);
    assert_eq!(
        p.set_queue(vec![song("a", 1000)], false, 0).unwrap_err(),
        Error::NotInitialized
    );
    assert_eq!(p.get_playback_state().unwrap_err(), Error::NotInitialized);
}

#[test]
fn get_authorization_status_works_in_every_state() {
    let mut p = MusicKitPlugin::mobile(true);
    assert_eq!(p.get_authorization_status().unwrap().status, "notInitialized");
    p.initialize().unwrap();
    assert_eq!(p.get_authorization_status().unwrap().status, "notAuthorized");
    p.authorize().unwrap();
    assert_eq!(p.get_authorization_status().unwrap().status, "authorized");
    p.unauthorize().unwrap();
    assert_eq!(p.get_authorization_status().unwrap().status, "notInitialized");
}

#[test]
fn initialize_twice_is_a_no_op_success() {
    let mut p = MusicKitPlugin::mobile(true);
    p.initialize().unwrap();
    p.authorize().unwrap();
    assert!(p.initialize().is_ok());
    assert_eq!(p.get_authorization_status().unwrap().status, "authorized");
}

#[test]
fn authorize_denied_when_consent_withheld() {
    let mut p = MusicKitPlugin::mobile(false);
    p.initialize().unwrap();
    let resp = p.authorize().unwrap();
    assert_eq!(resp.status, "notAuthorized");
    assert!(resp.error.is_none());
    assert_eq!(p.get_authorization_status().unwrap().status, "notAuthorized");
}

#[test]
fn tokens_and_storefront_round_trip() {
    let mut p = ready_session();
    assert_eq!(p.get_user_token().unwrap(), None);
    assert_eq!(p.get_developer_token().unwrap(), None);
    assert_eq!(p.get_storefront_id().unwrap(), None);
    p.set_user_token("SECRET-REDACTED".to_string()).unwrap();
    p.set_developer_token("dev-jwt".to_string()).unwrap();
    assert_eq!(p.get_user_token().unwrap(), Some("SECRET-REDACTED".to_string()));
    assert_eq!(p.get_developer_token().unwrap(), Some("dev-jwt".to_string()));
}

#[test]
fn playback_scenario_reaches_second_track() {
    let mut p = ready_session();
    let resp = p.authorize().unwrap();
    assert_eq!(resp.status, "authorized");
    let ok = p
        .set_queue(vec![song("track-a", 120_000), song("track-b", 90_000)], true, 0)
        .unwrap();
    assert!(ok.success);
    let current = p.get_current_track().unwrap().unwrap();
    assert_eq!(current.id, "track-a");
    p.next().unwrap();
    let state = p.get_playback_state().unwrap();
    assert_eq!(state.queue_position, 1);
    assert_eq!(state.current_track.unwrap().id, "track-b");
    assert!(state.playing);
}

#[test]
fn set_queue_success_has_matching_length_and_bounded_position() {
    let mut p = ready_session();
    let resp = p
        .set_queue(vec![song("a", 1000), song("b", 1000), song("c", 1000)], false, 2)
        .unwrap();
    assert!(resp.success);
    assert!(resp.error.is_none());
    let queue = p.get_queue().unwrap();
    assert_eq!(queue.items.len(), 3);
    assert!(queue.position < queue.items.len());
    assert_eq!(queue.position, 2);
}

#[test]
fn set_queue_with_out_of_range_start_reports_invalid_parameter() {
    let mut p = ready_session();
    p.set_queue(vec![song("a", 1000), song("b", 1000)], false, 0)
        .unwrap();
    let resp = p
        .set_queue(vec![song("x", 1000), song("y", 1000)], true, 2)
        .unwrap();
    assert!(!resp.success);
    assert_eq!(
        resp.error.unwrap(),
        "Invalid parameter: start position exceeds queue length"
    );
    let queue = p.get_queue().unwrap();
    let ids: Vec<&str> = queue.items.iter().map(|t| t.id.as_str()).collect();
    assert_eq!(ids, ["a", "b"]);
    assert_eq!(queue.position, 0);
}

#[test]
fn set_queue_with_empty_tracks_empties_queue_and_does_not_play() {
    let mut p = ready_session();
    p.set_queue(vec![song("a", 1000)], true, 0).unwrap();
    let resp = p.set_queue(Vec::new(), true, 0).unwrap();
    assert!(resp.success);
    let queue = p.get_queue().unwrap();
    assert_eq!(queue.items.len(), 0);
    assert_eq!(queue.position, 0);
    assert!(!p.get_playback_state().unwrap().playing);
}

#[test]
fn insert_then_get_queue_shows_track_at_index_in_order() {
    let mut p = ready_session();
    p.set_queue(vec![song("a", 1000), song("b", 1000), song("c", 1000)], false, 0)
        .unwrap();
    let resp = p.insert_track_at_position(song("t", 1000), 1).unwrap();
    assert!(resp.success);
    let queue = p.get_queue().unwrap();
    let ids: Vec<&str> = queue.items.iter().map(|t| t.id.as_str()).collect();
    assert_eq!(queue.items.len(), 4);
    assert_eq!(ids, ["a", "t", "b", "c"]);
}

#[test]
fn insert_past_end_reports_invalid_parameter_and_changes_nothing() {
    let mut p = ready_session();
    p.set_queue(vec![song("a", 1000)], false, 0).unwrap();
    let resp = p.insert_track_at_position(song("t", 1000), 5).unwrap();
    assert!(!resp.success);
    assert_eq!(
        resp.error.unwrap(),
        "Invalid parameter: insert position exceeds queue length"
    );
    assert_eq!(p.get_queue().unwrap().items.len(), 1);
}

#[test]
fn remove_absent_track_reports_queue_error_and_queue_is_identical() {
    let mut p = ready_session();
    p.set_queue(vec![song("a", 1000), song("b", 1000)], false, 1)
        .unwrap();
    let resp = p.remove_track_from_queue("zz".to_string()).unwrap();
    assert!(!resp.success);
    assert_eq!(
        resp.error.unwrap(),
        "Queue error: no track with the given identifier is in the queue"
    );
    let queue = p.get_queue().unwrap();
    let ids: Vec<&str> = queue.items.iter().map(|t| t.id.as_str()).collect();
    assert_eq!(ids, ["a", "b"]);
    assert_eq!(queue.position, 1);
}

#[test]
fn remove_present_track_removes_first_occurrence() {
    let mut p = ready_session();
    p.set_queue(
        vec![song("a", 1000), song("b", 1000), song("a", 1000)],
        false,
        2,
    )
    .unwrap();
    let resp = p.remove_track_from_queue("a".to_string()).unwrap();
    assert!(resp.success);
    let queue = p.get_queue().unwrap();
    let ids: Vec<&str> = queue.items.iter().map(|t| t.id.as_str()).collect();
    assert_eq!(ids, ["b", "a"]);
    assert_eq!(queue.position, 1);
}

#[test]
fn track_commands_reject_empty_identifiers_before_the_backend() {
    let mut p = ready_session();
    p.set_queue(vec![song("a", 1000)], false, 0).unwrap();
    assert!(matches!(
        p.remove_track_from_queue(String::new()),
        Err(Error::InvalidTrackIdentifier(_))
    ));
    assert!(matches!(
        p.skip_to_item(String::new(), true),
        Err(Error::InvalidTrackIdentifier(_))
    ));
    assert!(matches!(
        p.insert_track_next(song("", 1000)),
        Err(Error::InvalidTrackFormat(_))
    ));
    assert!(matches!(
        p.set_queue(vec![song("ok", 1000), song("", 1000)], false, 0),
        Err(Error::InvalidTrackFormat(_))
    ));
    assert_eq!(p.get_queue().unwrap().items.len(), 1);
}

#[test]
fn skip_to_item_moves_cursor_and_sets_playing() {
    let mut p = ready_session();
    p.set_queue(vec![song("a", 1000), song("b", 1000)], false, 0)
        .unwrap();
    p.skip_to_item("b".to_string(), true).unwrap();
    let state = p.get_playback_state().unwrap();
    assert_eq!(state.queue_position, 1);
    assert!(state.playing);
    let missing = p.skip_to_item("zz".to_string(), true);
    assert!(matches!(missing, Err(Error::InvalidTrackIdentifier(_))));
}

#[test]
fn playback_state_is_idempotent_without_mutation() {
    let mut p = ready_session();
    p.set_queue(vec![song("a", 120_000), song("b", 90_000)], true, 0)
        .unwrap();
    p.seek(30_000).unwrap();
    let first = p.get_playback_state().unwrap();
    let second = p.get_playback_state().unwrap();
    assert_eq!(first, second);
}

#[test]
fn playback_state_reports_exact_progress() {
    let mut p = ready_session();
    p.set_queue(vec![song("a", 120_000)], true, 0).unwrap();
    p.seek(30_000).unwrap();
    let state = p.get_playback_state().unwrap();
    assert_eq!(state.current_time_ms, 30_000);
    assert_eq!(state.duration_ms, 120_000);
    assert_eq!(state.progress_permille, 250);
    assert_eq!(state.volume_permille, 1000);
}

#[test]
fn seek_clamps_to_track_duration() {
    let mut p = ready_session();
    p.set_queue(vec![song("a", 60_000)], true, 0).unwrap();
    p.seek(90_000).unwrap();
    assert_eq!(p.get_playback_state().unwrap().current_time_ms, 60_000);
}

#[test]
fn set_volume_clamps_to_full_scale() {
    let mut p = ready_session();
    p.set_volume(2_500).unwrap();
    assert_eq!(p.get_playback_state().unwrap().volume_permille, 1000);
    p.set_volume(400).unwrap();
    assert_eq!(p.get_playback_state().unwrap().volume_permille, 400);
}

#[test]
fn transport_controls_drive_playing_flag() {
    let mut p = ready_session();
    p.play().unwrap();
    assert!(!p.get_playback_state().unwrap().playing);
    p.set_queue(vec![song("a", 1000), song("b", 1000)], false, 0)
        .unwrap();
    p.play().unwrap();
    assert!(p.get_playback_state().unwrap().playing);
    p.pause().unwrap();
    assert!(!p.get_playback_state().unwrap().playing);
    p.play().unwrap();
    p.stop().unwrap();
    let state = p.get_playback_state().unwrap();
    assert!(!state.playing);
    assert_eq!(state.current_time_ms, 0);
}

#[test]
fn next_at_end_of_queue_stops_playback() {
    let mut p = ready_session();
    p.set_queue(vec![song("a", 1000), song("b", 1000)], true, 1)
        .unwrap();
    p.next().unwrap();
    let state = p.get_playback_state().unwrap();
    assert_eq!(state.queue_position, 1);
    assert!(!state.playing);
}

#[test]
fn previous_at_head_changes_nothing() {
    let mut p = ready_session();
    p.set_queue(vec![song("a", 1000), song("b", 1000)], true, 0)
        .unwrap();
    p.previous().unwrap();
    let state = p.get_playback_state().unwrap();
    assert_eq!(state.queue_position, 0);
    assert!(state.playing);
}

#[test]
fn successful_mutations_emit_one_queue_update_each() {
    let mut p = ready_session();
    p.set_queue(vec![song("a", 1000)], false, 0).unwrap();
    p.insert_track_last(song("b", 1000)).unwrap();
    let events = p.drain_events();
    assert_eq!(events.len(), 2);
    match &events[1] {
        MusicKitEvent::QueueUpdate(e) => {
            assert_eq!(e.items.len(), 2);
            assert_eq!(e.position, 0);
        }
        other => panic!("expected a queue update, got {other:?}"),
    }
    assert!(p.drain_events().is_empty());
}

#[test]
fn failed_mutations_emit_nothing() {
    let mut p = ready_session();
    p.set_queue(vec![song("a", 1000)], false, 0).unwrap();
    p.drain_events();
    let resp = p.insert_track_at_position(song("t", 1000), 9).unwrap();
    assert!(!resp.success);
    assert!(p.drain_events().is_empty());
}

#[test]
fn cursor_moves_emit_track_change() {
    let mut p = ready_session();
    p.set_queue(vec![song("a", 1000), song("b", 1000)], true, 0)
        .unwrap();
    p.drain_events();
    p.next().unwrap();
    let events = p.drain_events();
    assert_eq!(events.len(), 1);
    match &events[0] {
        MusicKitEvent::TrackChange(e) => assert_eq!(e.track.id, "b"),
        other => panic!("expected a track change, got {other:?}"),
    }
}

#[test]
fn unauthorize_returns_session_to_uninitialized() {
    let mut p = ready_session();
    p.authorize().unwrap();
    let resp = p.unauthorize().unwrap();
    assert_eq!(resp.status, "unauthorized");
    assert_eq!(p.play().unwrap_err(), Error::NotInitialized);
}

#[test]
fn error_messages_follow_the_documented_forms() {
    assert_eq!(Error::NotInitialized.message(), "Not initialized");
    assert_eq!(Error::AlreadyInitialized.message(), "Already initialized");
    assert_eq!(Error::AuthorizationFailed.message(), "Authorization failed");
    assert_eq!(
        Error::InvalidTrackIdentifier("x1".to_string()).message(),
        "Invalid track identifier: x1"
    );
    assert_eq!(
        Error::InvalidTrackFormat("bad".to_string()).message(),
        "Invalid track format: bad"
    );
    assert_eq!(
        Error::InvalidParameter("volume".to_string()).message(),
        "Invalid parameter: volume"
    );
    assert_eq!(
        Error::QueueError("missing".to_string()).message(),
        "Queue error: missing"
    );
    assert_eq!(Error::PlatformNotSupported.message(), "Platform not supported");
    assert_eq!(
        Error::MusicKitError("boom".to_string()).message(),
        "MusicKit error: boom"
    );
    assert_eq!(
        Error::Tauri("channel closed".to_string()).message(),
        "Tauri error: channel closed"
    );
}

#[test]
fn progress_permille_formula_matches_expected_values() {
    assert_eq!(progress_permille(0, 0), 0);
    assert_eq!(progress_permille(5_000, 0), 0);
    assert_eq!(progress_permille(0, 10_000), 0);
    assert_eq!(progress_permille(2_500, 10_000), 250);
    assert_eq!(progress_permille(10_000, 10_000), 1000);
    assert_eq!(progress_permille(20_000, 10_000), 1000);
    assert_eq!(progress_permille(1, 3), 333);
}

#[test]
fn default_track_is_empty_and_playable() {
    let t = MusicKitTrack::default();
    assert_eq!(t.id, "");
    assert_eq!(t.title, "");
    assert_eq!(t.artist, "");
    assert_eq!(t.album, "");
    assert_eq!(t.duration_ms, 0);
    assert_eq!(t.artwork_url, None);
    assert!(!t.is_explicit);
    assert!(t.is_playable);
}

#[test]
fn mode_strings_follow_documented_forms() {
    assert_eq!(shuffle_mode_string(ShuffleMode::Off), "off");
    assert_eq!(shuffle_mode_string(ShuffleMode::Songs), "songs");
    assert_eq!(shuffle_mode_string(ShuffleMode::Albums), "albums");
    assert_eq!(repeat_mode_string(RepeatMode::NoRepeat), "none");
    assert_eq!(repeat_mode_string(RepeatMode::One), "one");
    assert_eq!(repeat_mode_string(RepeatMode::All), "all");
}

#[test]
fn authorization_state_machine_maps_outcomes_and_statuses() {
    assert_eq!(
        state_after_authorize(AuthorizeOutcome::Granted),
        AuthorizationState::Authorized
    );
    assert_eq!(
        state_after_authorize(AuthorizeOutcome::Denied),
        AuthorizationState::NotAuthorized
    );
    assert_eq!(
        state_after_authorize(AuthorizeOutcome::Failed),
        AuthorizationState::Error
    );
    assert_eq!(status_string(AuthorizationState::Uninitialized), "notInitialized");
    assert_eq!(status_string(AuthorizationState::NotAuthorized), "notAuthorized");
    assert_eq!(status_string(AuthorizationState::Authorized), "authorized");
    assert_eq!(status_string(AuthorizationState::Error), "notAuthorized");
    assert_eq!(authorize_status_string(AuthorizeOutcome::Granted), "authorized");
    assert_eq!(authorize_status_string(AuthorizeOutcome::Denied), "notAuthorized");
    assert_eq!(authorize_status_string(AuthorizeOutcome::Failed), "error");
}

#[test]
fn track_to_data_flattens_and_clamps() {
    let mut t = song("id-1", 200_000);
    let data = track_to_data(&t);
    assert_eq!(data.id, "id-1");
    assert_eq!(data.title, "song-id-1");
    assert_eq!(data.artist_name, "artist");
    assert_eq!(data.album_name, "album");
    assert_eq!(data.genre_names, "");
    assert_eq!(data.artwork, "https://artwork.example/id-1");
    assert_eq!(data.duration_in_millis, 200_000);
    t.duration_ms = u64::MAX;
    t.artwork_url = None;
    let clamped = track_to_data(&t);
    assert_eq!(clamped.duration_in_millis, i32::MAX);
    assert_eq!(clamped.artwork, "");
}
