//! The capability-limited backend: it satisfies the command contract with
//! fixed, well-defined results and never touches real playback.
//!
//! Lifecycle and token calls never error; token setters succeed as no-ops,
//! uniformly. Transport controls are no-ops that report success, so callers
//! scripting best-effort playback control need not branch per platform.
//! Queue queries report a well-formed empty or inert default value. Queue
//! mutations report failure carrying the fixed unsupported-platform message:
//! they would change caller-visible state, and silently succeeding without
//! changing anything would break the queue contract — callers must be able
//! to see that the mutation did not happen.

use vstd::prelude::*;

use crate::error::Error;
use crate::models::{
    AuthorizationResponse, AuthorizationStatusResponse, MusicKitTrack, PlaybackState,
    QueueOperationResponse, QueueResponse, RepeatMode, ShuffleMode, UnauthorizeResponse,
};

verus! {

/// The snapshot the desktop backend reports: nothing playing, no track, an
/// empty queue and full volume.
pub open spec fn spec_inert_snapshot() -> PlaybackState {
    PlaybackState {
        playing: false,
        current_track: None,
        current_time_ms: 0,
        duration_ms: 0,
        progress_permille: 0,
        queue_position: 0,
        shuffle_mode: ShuffleMode::Off,
        repeat_mode: RepeatMode::NoRepeat,
        volume_permille: 1000,
    }
}

/// The stateless desktop stub.
#[derive(Debug, PartialEq, Eq)]
pub struct DesktopBackend {}

impl DesktopBackend {
    pub fn new() -> (d: DesktopBackend) {
        DesktopBackend {  }
    }

    /// Succeeds without doing anything: there is no native session to set
    /// up.
    pub fn initialize(&self) -> (r: Result<(), Error>)
        ensures
            r is Ok,
    {
        Ok(())
    }

    /// Reports that authorization is not available here, with the fixed
    /// unsupported-platform explanation; it never errors.
    pub fn authorize(&self) -> (r: Result<AuthorizationResponse, Error>)
        ensures
            (r matches Ok(resp) && resp.status@ == "notAuthorized"@ && (resp.error matches Some(m)
                && m@ == "Not supported on desktop"@)),
    {
        Ok(
            AuthorizationResponse {
                status: String::from_str("notAuthorized"),
                error: Some(String::from_str("Not supported on desktop")),
            },
        )
    }

    /// Reports the session as unauthorized; it never errors.
    pub fn unauthorize(&self) -> (r: Result<UnauthorizeResponse, Error>)
        ensures
            (r matches Ok(resp) && resp.status@ == "unauthorized"@ && resp.error is None),
    {
        Ok(UnauthorizeResponse { status: String::from_str("unauthorized"), error: None })
    }

    /// Always reports not authorized, whatever was called before: the stub
    /// holds no authorization state to change.
    pub fn get_authorization_status(&self) -> (r: Result<AuthorizationStatusResponse, Error>)
        ensures
            (r matches Ok(resp) && resp.status@ == "notAuthorized"@),
    {
        Ok(AuthorizationStatusResponse { status: String::from_str("notAuthorized") })
    }

    /// No token store exists here: reports no value.
    pub fn get_user_token(&self) -> (r: Result<Option<String>, Error>)
        ensures
            r == Ok::<Option<String>, Error>(None),
    {
        Ok(None)
    }

    /// No token store exists here: reports no value.
    pub fn get_developer_token(&self) -> (r: Result<Option<String>, Error>)
        ensures
            r == Ok::<Option<String>, Error>(None),
    {
        Ok(None)
    }

    /// Accepts and discards the token: setters are no-ops here, uniformly.
    pub fn set_user_token(&self, _token: String) -> (r: Result<(), Error>)
        ensures
            r is Ok,
    {
        Ok(())
    }

    /// Accepts and discards the token: setters are no-ops here, uniformly.
    pub fn set_developer_token(&self, _token: String) -> (r: Result<(), Error>)
        ensures
            r is Ok,
    {
        Ok(())
    }

    /// No storefront is known here: reports no value.
    pub fn get_storefront_id(&self) -> (r: Result<Option<String>, Error>)
        ensures
            r == Ok::<Option<String>, Error>(None),
    {
        Ok(None)
    }

    /// Reports a well-formed empty queue with the cursor at the sentinel.
    pub fn get_queue(&self) -> (r: Result<QueueResponse, Error>)
        ensures
            (r matches Ok(resp) && resp.items@ =~= Seq::<MusicKitTrack>::empty() && resp.position
                == 0),
    {
        Ok(QueueResponse { items: Vec::new(), position: 0 })
    }

    /// A transport no-op that reports success.
    pub fn play(&self) -> (r: Result<(), Error>)
        ensures
            r is Ok,
    {
        Ok(())
    }

    /// A transport no-op that reports success.
    pub fn pause(&self) -> (r: Result<(), Error>)
        ensures
            r is Ok,
    {
        Ok(())
    }

    /// A transport no-op that reports success.
    pub fn stop(&self) -> (r: Result<(), Error>)
        ensures
            r is Ok,
    {
        Ok(())
    }

    /// A transport no-op that reports success.
    pub fn seek(&self, _time_ms: u64) -> (r: Result<(), Error>)
        ensures
            r is Ok,
    {
        Ok(())
    }

    /// A transport no-op that reports success.
    pub fn next(&self) -> (r: Result<(), Error>)
        ensures
            r is Ok,
    {
        Ok(())
    }

    /// A transport no-op that reports success.
    pub fn previous(&self) -> (r: Result<(), Error>)
        ensures
            r is Ok,
    {
        Ok(())
    }

    /// A transport no-op that reports success.
    pub fn skip_to_item(&self, _track_id: String, _start_playing: bool) -> (r: Result<(), Error>)
        ensures
            r is Ok,
    {
        Ok(())
    }

    /// A transport no-op that reports success.
    pub fn set_volume(&self, _volume_permille: u32) -> (r: Result<(), Error>)
        ensures
            r is Ok,
    {
        Ok(())
    }

    /// Reports the mutation as not applied, with the fixed
    /// unsupported-platform message.
    fn unsupported_mutation(&self) -> (r: QueueOperationResponse)
        ensures
            r.success == false,
            (r.error matches Some(m) && m@ == "Not supported on desktop"@),
    {
        QueueOperationResponse {
            success: false,
            error: Some(String::from_str("Not supported on desktop")),
        }
    }

    /// Queue mutations are unsupported here: reports failure, with the
    /// fixed unsupported-platform message, and changes nothing.
    pub fn set_queue(
        &self,
        _tracks: Vec<MusicKitTrack>,
        _start_playing: bool,
        _start_position: usize,
    ) -> (r: Result<QueueOperationResponse, Error>)
        ensures
            (r matches Ok(resp) && resp.success == false && (resp.error matches Some(m) && m@
                == "Not supported on desktop"@)),
    {
        Ok(self.unsupported_mutation())
    }

    /// Queue mutations are unsupported here: reports failure, with the
    /// fixed unsupported-platform message, and changes nothing.
    pub fn update_queue(&self, _tracks: Vec<MusicKitTrack>) -> (r: Result<
        QueueOperationResponse,
        Error,
    >)
        ensures
            (r matches Ok(resp) && resp.success == false && (resp.error matches Some(m) && m@
                == "Not supported on desktop"@)),
    {
        Ok(self.unsupported_mutation())
    }

    /// Queue mutations are unsupported here: reports failure, with the
    /// fixed unsupported-platform message, and changes nothing.
    pub fn insert_track_at_position(&self, _track: MusicKitTrack, _position: usize) -> (r: Result<
        QueueOperationResponse,
        Error,
    >)
        ensures
            (r matches Ok(resp) && resp.success == false && (resp.error matches Some(m) && m@
                == "Not supported on desktop"@)),
    {
        Ok(self.unsupported_mutation())
    }

    /// Queue mutations are unsupported here: reports failure, with the
    /// fixed unsupported-platform message, and changes nothing.
    pub fn insert_tracks_at_position(
        &self,
        _tracks: Vec<MusicKitTrack>,
        _position: usize,
    ) -> (r: Result<QueueOperationResponse, Error>)
        ensures
            (r matches Ok(resp) && resp.success == false && (resp.error matches Some(m) && m@
                == "Not supported on desktop"@)),
    {
        Ok(self.unsupported_mutation())
    }

    /// Queue mutations are unsupported here: reports failure, with the
    /// fixed unsupported-platform message, and changes nothing.
    pub fn remove_track_from_queue(&self, _track_id: String) -> (r: Result<
        QueueOperationResponse,
        Error,
    >)
        ensures
            (r matches Ok(resp) && resp.success == false && (resp.error matches Some(m) && m@
                == "Not supported on desktop"@)),
    {
        Ok(self.unsupported_mutation())
    }

    /// Queue mutations are unsupported here: reports failure, with the
    /// fixed unsupported-platform message, and changes nothing.
    pub fn insert_track_next(&self, _track: MusicKitTrack) -> (r: Result<
        QueueOperationResponse,
        Error,
    >)
        ensures
            (r matches Ok(resp) && resp.success == false && (resp.error matches Some(m) && m@
                == "Not supported on desktop"@)),
    {
        Ok(self.unsupported_mutation())
    }

    /// Queue mutations are unsupported here: reports failure, with the
    /// fixed unsupported-platform message, and changes nothing.
    pub fn insert_track_last(&self, _track: MusicKitTrack) -> (r: Result<
        QueueOperationResponse,
        Error,
    >)
        ensures
            (r matches Ok(resp) && resp.success == false && (resp.error matches Some(m) && m@
                == "Not supported on desktop"@)),
    {
        Ok(self.unsupported_mutation())
    }

    /// Queue mutations are unsupported here: reports failure, with the
    /// fixed unsupported-platform message, and changes nothing.
    pub fn append_tracks_to_queue(&self, _tracks: Vec<MusicKitTrack>) -> (r: Result<
        QueueOperationResponse,
        Error,
    >)
        ensures
            (r matches Ok(resp) && resp.success == false && (resp.error matches Some(m) && m@
                == "Not supported on desktop"@)),
    {
        Ok(self.unsupported_mutation())
    }

    /// No track is ever current here: reports no value, never an error.
    pub fn get_current_track(&self) -> (r: Result<Option<MusicKitTrack>, Error>)
        ensures
            r == Ok::<Option<MusicKitTrack>, Error>(None),
    {
        Ok(None)
    }

    /// Reports the inert default snapshot, never an error.
    pub fn get_playback_state(&self) -> (r: Result<PlaybackState, Error>)
        ensures
            r == Ok::<PlaybackState, Error>(spec_inert_snapshot()),
    {
        Ok(
            PlaybackState {
                playing: false,
                current_track: None,
                current_time_ms: 0,
                duration_ms: 0,
                progress_permille: 0,
                queue_position: 0,
                shuffle_mode: ShuffleMode::Off,
                repeat_mode: RepeatMode::NoRepeat,
                volume_permille: 1000,
            },
        )
    }
}

} // verus!
