//! Tests of the capability-limited backend behind the command router: fixed
//! statuses, transport no-ops, empty queries and unsupported mutations.

use apple_music_kit::MusicKitPlugin;
use apple_music_kit::MusicKitTrack;

fn stub_track(id: &str) -> MusicKitTrack {
    MusicKitTrack {
        id: id.to_string(),
        title: "title".to_string(),
        artist: "artist".to_string(),
        album: "album".to_string(),
        duration_ms: 1_000,
        artwork_url: None,
        is_explicit: false,
        is_playable: true,
    }
}

#[test]
fn desktop_authorization_status_is_always_not_authorized() {
    let mut p = MusicKitPlugin::desktop();
    assert_eq!(p.get_authorization_status().unwrap().status, "notAuthorized");
    p.initialize().unwrap();
    assert_eq!(p.get_authorization_status().unwrap().status, "notAuthorized");
    p.authorize().unwrap();
    assert_eq!(p.get_authorization_status().unwrap().status, "notAuthorized");
    p.unauthorize().unwrap();
    assert_eq!(p.get_authorization_status().unwrap().status, "notAuthorized");
}

#[test]
fn desktop_authorize_reports_unsupported_explanation() {
    let mut p = MusicKitPlugin::desktop();
    p.initialize().unwrap();
    let resp = p.authorize().unwrap();
    assert_eq!(resp.status, "notAuthorized");
    assert_eq!(resp.error.unwrap(), "Not supported on desktop");
    let off = p.unauthorize().unwrap();
    assert_eq!(off.status, "unauthorized");
    assert!(off.error.is_none());
}

#[test]
fn desktop_token_getters_report_no_value_and_setters_succeed() {
    let mut p = MusicKitPlugin::desktop();
    assert_eq!(p.get_user_token().unwrap(), None);
    assert_eq!(p.get_developer_token().unwrap(), None);
    assert_eq!(p.get_storefront_id().unwrap(), None);
    p.set_user_token("ignored".to_string()).unwrap();
    p.set_developer_token("ignored-too".to_string()).unwrap();
    assert_eq!(p.get_user_token().unwrap(), None);
    assert_eq!(p.get_developer_token().unwrap(), None);
}

#[test]
fn desktop_transport_controls_are_no_op_successes() {
    let mut p = MusicKitPlugin::desktop();
    assert!(p.play().is_ok());
    assert!(p.pause().is_ok());
    assert!(p.stop().is_ok());
    assert!(p.seek(5_000).is_ok());
    assert!(p.next().is_ok());
    assert!(p.previous().is_ok());
    assert!(p.skip_to_item("some-id".to_string(), true).is_ok());
    assert!(p.set_volume(500).is_ok());
}

#[test]
fn every_desktop_queue_mutation_reports_unsupported() {
    let mut p = MusicKitPlugin::desktop();
    let responses = vec![
        p.set_queue(vec![stub_track("a")], true, 0).unwrap(),
        p.update_queue(vec![stub_track("a")]).unwrap(),
        p.insert_track_at_position(stub_track("a"), 0).unwrap(),
        p.insert_tracks_at_position(vec![stub_track("a")], 0).unwrap(),
        p.remove_track_from_queue("a".to_string()).unwrap(),
        p.insert_track_next(stub_track("a")).unwrap(),
        p.insert_track_last(stub_track("a")).unwrap(),
        p.append_tracks_to_queue(vec![stub_track("a")]).unwrap(),
    ];
    for resp in responses {
        assert!(!resp.success);
        assert_eq!(resp.error.unwrap(), "Not supported on desktop");
    }
}

#[test]
fn every_desktop_queue_query_returns_a_well_formed_default() {
    let p = MusicKitPlugin::desktop();
    let queue = p.get_queue().unwrap();
    assert!(queue.items.is_empty());
    assert_eq!(queue.position, 0);
    assert_eq!(p.get_current_track().unwrap(), None);
    let state = p.get_playback_state().unwrap();
    assert!(!state.playing);
    assert_eq!(state.current_track, None);
    assert_eq!(state.current_time_ms, 0);
    assert_eq!(state.duration_ms, 0);
    assert_eq!(state.progress_permille, 0);
    assert_eq!(state.queue_position, 0);
    assert_eq!(state.volume_permille, 1000);
}

#[test]
fn desktop_queue_state_is_unchanged_after_rejected_mutations() {
    let mut p = MusicKitPlugin::desktop();
    p.set_queue(vec![stub_track("a"), stub_track("b")], true, 0)
        .unwrap();
    let queue = p.get_queue().unwrap();
    assert!(queue.items.is_empty());
    assert_eq!(queue.position, 0);
}

#[test]
fn desktop_playback_state_is_idempotent() {
    let p = MusicKitPlugin::desktop();
    assert_eq!(p.get_playback_state().unwrap(), p.get_playback_state().unwrap());
}

#[test]
fn desktop_buffers_no_events() {
    let mut p = MusicKitPlugin::desktop();
    p.set_queue(vec![stub_track("a")], true, 0).unwrap();
    assert!(p.drain_events().is_empty());
}
