//! The full-featured backend: it owns the authoritative queue and playback
//! state of the session.
//!
//! Every command other than `initialize` and `get_authorization_status`
//! demands an initialized session and fails with a not-initialized error
//! otherwise, leaving the state untouched. Queue mutations are atomic and
//! report failures inside the operation envelope, classified into the error
//! taxonomy; successful mutations append one queue-update event, and cursor
//! moves append one track-change event, to the outbound buffer.

use vstd::prelude::*;

use crate::auth::{
    spec_authorize_status_string, spec_is_initialized, spec_state_after_authorize,
    authorize_status_string, is_initialized, state_after_authorize, AuthorizationState,
    AuthorizeOutcome,
};
use crate::error::Error;
use crate::events::{queue_update_emitted, track_change_emitted, MusicKitEvent};
use crate::models::{
    clone_tracks, progress_permille, spec_progress_permille, AuthorizationResponse,
    AuthorizationStatusResponse, MusicKitTrack, PlaybackState, QueueOperationResponse,
    QueueResponse, QueueUpdateEvent, RepeatMode, ShuffleMode, TrackChangeEvent,
    UnauthorizeResponse,
};
use crate::queue::{contains_id, first_id_index, Queue};

verus! {

/// The session state the backend owns.
pub struct MobileBackend {
    /// Where the session stands in the authorization lifecycle.
    pub auth: AuthorizationState,
    /// The user's standing consent decision, fixed at session construction:
    /// an authorization attempt on this session is granted exactly when this
    /// holds.
    pub consent_granted: bool,
    pub user_token: Option<String>,
    pub developer_token: Option<String>,
    pub storefront_id: Option<String>,
    /// The authoritative playback queue.
    pub queue: Queue,
    pub playing: bool,
    /// Elapsed time within the current track, in milliseconds.
    pub current_time_ms: u64,
    /// Volume in permille of full scale.
    pub volume_permille: u32,
    pub shuffle_mode: ShuffleMode,
    pub repeat_mode: RepeatMode,
    /// The outbound event buffer the caller drains.
    pub pending: Vec<MusicKitEvent>,
}

/// The parts of the backend that no queue or playback command touches:
/// authorization, consent and the token store.
pub open spec fn same_session(a: MobileBackend, b: MobileBackend) -> bool {
    &&& a.auth == b.auth
    &&& a.consent_granted == b.consent_granted
    &&& a.user_token == b.user_token
    &&& a.developer_token == b.developer_token
    &&& a.storefront_id == b.storefront_id
}

/// The playback controls: the playing flag, elapsed time, volume and modes.
pub open spec fn same_playback(a: MobileBackend, b: MobileBackend) -> bool {
    &&& a.playing == b.playing
    &&& a.current_time_ms == b.current_time_ms
    &&& a.volume_permille == b.volume_permille
    &&& a.shuffle_mode == b.shuffle_mode
    &&& a.repeat_mode == b.repeat_mode
}

/// The playback modes and volume alone.
pub open spec fn same_modes(a: MobileBackend, b: MobileBackend) -> bool {
    &&& a.volume_permille == b.volume_permille
    &&& a.shuffle_mode == b.shuffle_mode
    &&& a.repeat_mode == b.repeat_mode
}

/// The duration of the track under the cursor, or zero with an empty queue.
pub open spec fn spec_current_duration(m: MobileBackend) -> u64 {
    if m.queue.items@.len() > 0 {
        m.queue.items@[m.queue.position as int].duration_ms
    } else {
        0
    }
}

/// The snapshot `get_playback_state` returns for a session state: a pure
/// function of the state, so an unmutated session always reports the same
/// snapshot.
pub open spec fn spec_snapshot(m: MobileBackend) -> PlaybackState {
    PlaybackState {
        playing: m.playing,
        current_track: if m.queue.items@.len() > 0 {
            Some(m.queue.items@[m.queue.position as int])
        } else {
            None
        },
        current_time_ms: m.current_time_ms,
        duration_ms: spec_current_duration(m),
        progress_permille: spec_progress_permille(
            m.current_time_ms as int,
            spec_current_duration(m) as int,
        ) as u32,
        queue_position: m.queue.position,
        shuffle_mode: m.shuffle_mode,
        repeat_mode: m.repeat_mode,
        volume_permille: m.volume_permille,
    }
}


/// What `next` leaves behind and returns, for every session state.
pub open spec fn next_post(pre: MobileBackend, post: MobileBackend, r: Result<(), Error>) -> bool {
    &&& !pre.spec_initialized() ==> r == Err::<(), Error>(Error::NotInitialized) && post == pre
    &&& pre.spec_initialized() && pre.queue.items@.len() > 0 && pre.queue.position + 1
        < pre.queue.items@.len() ==> r is Ok && same_session(pre, post) && same_modes(pre, post)
        && post.queue.items@ == pre.queue.items@ && post.queue.position == pre.queue.position + 1
        && post.current_time_ms == 0 && post.playing == pre.playing && track_change_emitted(
        pre.pending@,
        post.pending@,
        pre.queue.items@[pre.queue.position + 1],
    )
    &&& pre.spec_initialized() && !(pre.queue.items@.len() > 0 && pre.queue.position + 1
        < pre.queue.items@.len()) ==> r is Ok && post == (MobileBackend {
        playing: false,
        ..pre
    })
}

/// What `previous` leaves behind and returns, for every session state.
pub open spec fn previous_post(pre: MobileBackend, post: MobileBackend, r: Result<(), Error>) -> bool {
    &&& !pre.spec_initialized() ==> r == Err::<(), Error>(Error::NotInitialized) && post == pre
    &&& pre.spec_initialized() && pre.queue.position > 0 ==> r is Ok && same_session(pre, post)
        && same_modes(pre, post) && post.queue.items@ == pre.queue.items@ && post.queue.position
        == pre.queue.position - 1 && post.current_time_ms == 0 && post.playing == pre.playing
        && track_change_emitted(
        pre.pending@,
        post.pending@,
        pre.queue.items@[pre.queue.position - 1],
    )
    &&& pre.spec_initialized() && pre.queue.position == 0 ==> r is Ok && post == pre
}

/// What `skip_to_item` leaves behind and returns, for every session state.
pub open spec fn skip_to_item_post(
    pre: MobileBackend,
    track_id: Seq<char>,
    start_playing: bool,
    post: MobileBackend,
    r: Result<(), Error>,
) -> bool {
    &&& !pre.spec_initialized() ==> r == Err::<(), Error>(Error::NotInitialized) && post == pre
    &&& pre.spec_initialized() && !contains_id(pre.queue.items@, track_id) ==> (r matches Err(
        Error::InvalidTrackIdentifier(m),
    ) && m@ == track_id) && post == pre
    &&& pre.spec_initialized() && contains_id(pre.queue.items@, track_id) ==> {
        let j = first_id_index(pre.queue.items@, track_id);
        &&& r is Ok
        &&& same_session(pre, post)
        &&& same_modes(pre, post)
        &&& post.queue.items@ == pre.queue.items@
        &&& post.queue.position as int == j
        &&& post.current_time_ms == 0
        &&& post.playing == start_playing
        &&& track_change_emitted(pre.pending@, post.pending@, pre.queue.items@[j])
    }
}

/// What `set_queue` leaves behind and returns, for every session state.
pub open spec fn set_queue_post(
    pre: MobileBackend,
    tracks: Seq<MusicKitTrack>,
    start_playing: bool,
    start_position: int,
    post: MobileBackend,
    r: Result<QueueOperationResponse, Error>,
) -> bool {
    &&& !pre.spec_initialized() ==> r == Err::<QueueOperationResponse, Error>(
        Error::NotInitialized,
    ) && post == pre
    &&& pre.spec_initialized() && (tracks.len() == 0 || start_position < tracks.len()) ==> (
    r matches Ok(resp) && resp.success == true && resp.error is None) && same_session(pre, post)
        && same_modes(pre, post) && post.queue.items@ == tracks && post.queue.position as int == (
    if tracks.len() == 0 {
        0int
    } else {
        start_position
    }) && post.playing == (tracks.len() > 0 && start_playing) && post.current_time_ms == 0
        && queue_update_emitted(
        pre.pending@,
        post.pending@,
        tracks,
        if tracks.len() == 0 {
            0int
        } else {
            start_position
        },
    )
    &&& pre.spec_initialized() && tracks.len() > 0 && start_position >= tracks.len() ==> (
    r matches Ok(resp) && resp.success == false && (resp.error matches Some(m) && m@
        == "Invalid parameter: "@ + "start position exceeds queue length"@)) && post == pre
}

/// What `update_queue` leaves behind and returns, for every session state.
pub open spec fn update_queue_post(
    pre: MobileBackend,
    tracks: Seq<MusicKitTrack>,
    post: MobileBackend,
    r: Result<QueueOperationResponse, Error>,
) -> bool {
    &&& !pre.spec_initialized() ==> r == Err::<QueueOperationResponse, Error>(
        Error::NotInitialized,
    ) && post == pre
    &&& pre.spec_initialized() ==> (r matches Ok(resp) && resp.success == true && resp.error
        is None) && same_session(pre, post) && same_playback(pre, post) && post.queue.items@
        == tracks && post.queue.position as int == (if tracks.len() == 0 {
        0int
    } else if (pre.queue.position as int) < tracks.len() {
        pre.queue.position as int
    } else {
        tracks.len() - 1
    }) && queue_update_emitted(pre.pending@, post.pending@, tracks, post.queue.position as int)
}

/// What `insert_track_at_position` leaves behind and returns, for every
/// session state.
pub open spec fn insert_track_at_position_post(
    pre: MobileBackend,
    track: MusicKitTrack,
    position: int,
    post: MobileBackend,
    r: Result<QueueOperationResponse, Error>,
) -> bool {
    &&& !pre.spec_initialized() ==> r == Err::<QueueOperationResponse, Error>(
        Error::NotInitialized,
    ) && post == pre
    &&& pre.spec_initialized() && position <= pre.queue.items@.len() ==> (r matches Ok(resp)
        && resp.success == true && resp.error is None) && same_session(pre, post)
        && same_playback(pre, post) && post.queue.items@ == pre.queue.items@.insert(
        position,
        track,
    ) && post.queue.position as int == crate::queue::cursor_after_insert(
        pre.queue.items@.len() as int,
        pre.queue.position as int,
        position,
        1,
    ) && queue_update_emitted(
        pre.pending@,
        post.pending@,
        post.queue.items@,
        post.queue.position as int,
    )
    &&& pre.spec_initialized() && position > pre.queue.items@.len() ==> (r matches Ok(resp)
        && resp.success == false && (resp.error matches Some(m) && m@ == "Invalid parameter: "@
        + "insert position exceeds queue length"@)) && post == pre
}

/// What `insert_tracks_at_position` leaves behind and returns, for every
/// session state.
pub open spec fn insert_tracks_at_position_post(
    pre: MobileBackend,
    tracks: Seq<MusicKitTrack>,
    position: int,
    post: MobileBackend,
    r: Result<QueueOperationResponse, Error>,
) -> bool {
    &&& !pre.spec_initialized() ==> r == Err::<QueueOperationResponse, Error>(
        Error::NotInitialized,
    ) && post == pre
    &&& pre.spec_initialized() && position <= pre.queue.items@.len() ==> (r matches Ok(resp)
        && resp.success == true && resp.error is None) && same_session(pre, post)
        && same_playback(pre, post) && post.queue.items@ == pre.queue.items@.subrange(0, position)
        + tracks + pre.queue.items@.subrange(position, pre.queue.items@.len() as int)
        && post.queue.position as int == crate::queue::cursor_after_insert(
        pre.queue.items@.len() as int,
        pre.queue.position as int,
        position,
        tracks.len() as int,
    ) && queue_update_emitted(
        pre.pending@,
        post.pending@,
        post.queue.items@,
        post.queue.position as int,
    )
    &&& pre.spec_initialized() && position > pre.queue.items@.len() ==> (r matches Ok(resp)
        && resp.success == false && (resp.error matches Some(m) && m@ == "Invalid parameter: "@
        + "insert position exceeds queue length"@)) && post == pre
}

/// What `remove_track_from_queue` leaves behind and returns, for every
/// session state.
pub open spec fn remove_track_from_queue_post(
    pre: MobileBackend,
    track_id: Seq<char>,
    post: MobileBackend,
    r: Result<QueueOperationResponse, Error>,
) -> bool {
    &&& !pre.spec_initialized() ==> r == Err::<QueueOperationResponse, Error>(
        Error::NotInitialized,
    ) && post == pre
    &&& pre.spec_initialized() && contains_id(pre.queue.items@, track_id) ==> {
        let j = first_id_index(pre.queue.items@, track_id);
        &&& (r matches Ok(resp) && resp.success == true && resp.error is None)
        &&& same_session(pre, post)
        &&& same_playback(pre, post)
        &&& post.queue.items@ == pre.queue.items@.remove(j)
        &&& post.queue.position as int == crate::queue::cursor_after_remove(
            pre.queue.position as int,
            j,
            pre.queue.items@.len() - 1,
        )
        &&& queue_update_emitted(
            pre.pending@,
            post.pending@,
            post.queue.items@,
            post.queue.position as int,
        )
    }
    &&& pre.spec_initialized() && !contains_id(pre.queue.items@, track_id) ==> (r matches Ok(
        resp,
    ) && resp.success == false && (resp.error matches Some(m) && m@ == "Queue error: "@
        + "no track with the given identifier is in the queue"@)) && post == pre
}

/// What `insert_track_next` leaves behind and returns, for every session
/// state.
pub open spec fn insert_track_next_post(
    pre: MobileBackend,
    track: MusicKitTrack,
    post: MobileBackend,
    r: Result<QueueOperationResponse, Error>,
) -> bool {
    &&& !pre.spec_initialized() ==> r == Err::<QueueOperationResponse, Error>(
        Error::NotInitialized,
    ) && post == pre
    &&& pre.spec_initialized() ==> (r matches Ok(resp) && resp.success == true && resp.error
        is None) && same_session(pre, post) && same_playback(pre, post) && post.queue.position
        == pre.queue.position && post.queue.items@ == pre.queue.items@.insert(
        if pre.queue.items@.len() == 0 {
            0int
        } else {
            pre.queue.position + 1
        },
        track,
    ) && queue_update_emitted(
        pre.pending@,
        post.pending@,
        post.queue.items@,
        post.queue.position as int,
    )
}

/// What `insert_track_last` leaves behind and returns, for every session
/// state.
pub open spec fn insert_track_last_post(
    pre: MobileBackend,
    track: MusicKitTrack,
    post: MobileBackend,
    r: Result<QueueOperationResponse, Error>,
) -> bool {
    &&& !pre.spec_initialized() ==> r == Err::<QueueOperationResponse, Error>(
        Error::NotInitialized,
    ) && post == pre
    &&& pre.spec_initialized() ==> (r matches Ok(resp) && resp.success == true && resp.error
        is None) && same_session(pre, post) && same_playback(pre, post) && post.queue.position
        == pre.queue.position && post.queue.items@ == pre.queue.items@.push(track)
        && queue_update_emitted(
        pre.pending@,
        post.pending@,
        post.queue.items@,
        post.queue.position as int,
    )
}

/// What `append_tracks_to_queue` leaves behind and returns, for every
/// session state.
pub open spec fn append_tracks_to_queue_post(
    pre: MobileBackend,
    tracks: Seq<MusicKitTrack>,
    post: MobileBackend,
    r: Result<QueueOperationResponse, Error>,
) -> bool {
    &&& !pre.spec_initialized() ==> r == Err::<QueueOperationResponse, Error>(
        Error::NotInitialized,
    ) && post == pre
    &&& pre.spec_initialized() ==> (r matches Ok(resp) && resp.success == true && resp.error
        is None) && same_session(pre, post) && same_playback(pre, post) && post.queue.position
        == pre.queue.position && post.queue.items@ == pre.queue.items@ + tracks
        && queue_update_emitted(
        pre.pending@,
        post.pending@,
        post.queue.items@,
        post.queue.position as int,
    )
}

/// Querying the playback state is idempotent: two consecutive queries of an
/// initialized session with no intervening mutation return identical
/// snapshots, because each result is the same pure function of the session
/// state.
pub proof fn lemma_playback_state_idempotent(
    m: MobileBackend,
    r1: Result<PlaybackState, Error>,
    r2: Result<PlaybackState, Error>,
)
    requires
        m.spec_initialized(),
        r1 == Ok::<PlaybackState, Error>(spec_snapshot(m)),
        r2 == Ok::<PlaybackState, Error>(spec_snapshot(m)),
    ensures
        r1 == r2,
{
}

impl MobileBackend {
    /// The backend invariant: a valid queue and a volume within scale.
    pub open spec fn valid(&self) -> bool {
        &&& self.queue.valid()
        &&& self.volume_permille <= 1000
    }

    /// Whether the session counts as initialized.
    pub open spec fn spec_initialized(&self) -> bool {
        spec_is_initialized(self.auth)
    }

    /// A fresh, uninitialized session whose authorization attempts will be
    /// granted exactly when `consent_granted` holds.
    pub fn new(consent_granted: bool) -> (m: MobileBackend)
        ensures
            m.valid(),
            m.auth == AuthorizationState::Uninitialized,
            m.consent_granted == consent_granted,
            m.user_token is None,
            m.developer_token is None,
            m.storefront_id is None,
            m.queue.items@ =~= Seq::<MusicKitTrack>::empty(),
            m.queue.position == 0,
            m.playing == false,
            m.current_time_ms == 0,
            m.volume_permille == 1000,
            m.shuffle_mode == ShuffleMode::Off,
            m.repeat_mode == RepeatMode::NoRepeat,
            m.pending@ =~= Seq::<MusicKitEvent>::empty(),
    {
        MobileBackend {
            auth: AuthorizationState::Uninitialized,
            consent_granted,
            user_token: None,
            developer_token: None,
            storefront_id: None,
            queue: Queue::new(),
            playing: false,
            current_time_ms: 0,
            volume_permille: 1000,
            shuffle_mode: ShuffleMode::Off,
            repeat_mode: RepeatMode::NoRepeat,
            pending: Vec::new(),
        }
    }

    /// Moves an uninitialized session to the initialized, not-authorized
    /// state. Initializing an already-initialized session is a no-op
    /// success.
    pub fn initialize(&mut self) -> (r: Result<(), Error>)
        requires
            old(self).valid(),
        ensures
            final(self).valid(),
            r is Ok,
            old(self).auth == AuthorizationState::Uninitialized ==> *final(self) == (MobileBackend {
                auth: AuthorizationState::NotAuthorized,
                ..*old(self)
            }),
            old(self).auth != AuthorizationState::Uninitialized ==> *final(self) == *old(self),
    {
        if self.auth == AuthorizationState::Uninitialized {
            self.auth = AuthorizationState::NotAuthorized;
        }
        Ok(())
    }

    /// Attempts authorization: granted exactly when the session's standing
    /// consent holds. The session must be initialized.
    pub fn authorize(&mut self) -> (r: Result<AuthorizationResponse, Error>)
        requires
            old(self).valid(),
        ensures
            final(self).valid(),
            !old(self).spec_initialized() ==> r == Err::<AuthorizationResponse, Error>(
                Error::NotInitialized,
            ) && *final(self) == *old(self),
            old(self).spec_initialized() ==> {
                let outcome = if old(self).consent_granted {
                    AuthorizeOutcome::Granted
                } else {
                    AuthorizeOutcome::Denied
                };
                &&& *final(self) == (MobileBackend {
                    auth: spec_state_after_authorize(outcome),
                    ..*old(self)
                })
                &&& (r matches Ok(resp) && resp.status@ == spec_authorize_status_string(outcome)
                    && resp.error is None)
            },
    {
        if !is_initialized(self.auth) {
            return Err(Error::NotInitialized);
        }
        let outcome = if self.consent_granted {
            AuthorizeOutcome::Granted
        } else {
            AuthorizeOutcome::Denied
        };
        self.auth = state_after_authorize(outcome);
        Ok(AuthorizationResponse { status: authorize_status_string(outcome), error: None })
    }

    /// Drops authorization and returns the session to the uninitialized
    /// state. The session must be initialized.
    pub fn unauthorize(&mut self) -> (r: Result<UnauthorizeResponse, Error>)
        requires
            old(self).valid(),
        ensures
            final(self).valid(),
            !old(self).spec_initialized() ==> r == Err::<UnauthorizeResponse, Error>(
                Error::NotInitialized,
            ) && *final(self) == *old(self),
            old(self).spec_initialized() ==> *final(self) == (MobileBackend {
                auth: AuthorizationState::Uninitialized,
                ..*old(self)
            }) && (r matches Ok(resp) && resp.status@ == "unauthorized"@ && resp.error is None),
    {
        if !is_initialized(self.auth) {
            return Err(Error::NotInitialized);
        }
        self.auth = AuthorizationState::Uninitialized;
        Ok(UnauthorizeResponse { status: String::from_str("unauthorized"), error: None })
    }

    /// Reports where the session stands in the authorization lifecycle. A
    /// pure query: it never transitions and is answered in every state.
    pub fn get_authorization_status(&self) -> (r: Result<AuthorizationStatusResponse, Error>)
        ensures
            (r matches Ok(resp) && resp.status@ == crate::auth::spec_status_string(self.auth)),
    {
        Ok(AuthorizationStatusResponse { status: crate::auth::status_string(self.auth) })
    }

    /// The stored user token. The session must be initialized.
    pub fn get_user_token(&self) -> (r: Result<Option<String>, Error>)
        ensures
            !self.spec_initialized() ==> r == Err::<Option<String>, Error>(Error::NotInitialized),
            self.spec_initialized() ==> r == Ok::<Option<String>, Error>(self.user_token),
    {
        if !is_initialized(self.auth) {
            return Err(Error::NotInitialized);
        }
        Ok(self.user_token.clone())
    }

    /// The stored developer token. The session must be initialized.
    pub fn get_developer_token(&self) -> (r: Result<Option<String>, Error>)
        ensures
            !self.spec_initialized() ==> r == Err::<Option<String>, Error>(Error::NotInitialized),
            self.spec_initialized() ==> r == Ok::<Option<String>, Error>(self.developer_token),
    {
        if !is_initialized(self.auth) {
            return Err(Error::NotInitialized);
        }
        Ok(self.developer_token.clone())
    }

    /// Stores the user token. The session must be initialized.
    pub fn set_user_token(&mut self, token: String) -> (r: Result<(), Error>)
        requires
            old(self).valid(),
        ensures
            final(self).valid(),
            !old(self).spec_initialized() ==> r == Err::<(), Error>(Error::NotInitialized)
                && *final(self) == *old(self),
            old(self).spec_initialized() ==> r is Ok && *final(self) == (MobileBackend {
                user_token: Some(token),
                ..*old(self)
            }),
    {
        if !is_initialized(self.auth) {
            return Err(Error::NotInitialized);
        }
        self.user_token = Some(token);
        Ok(())
    }

    /// Stores the developer token. The session must be initialized.
    pub fn set_developer_token(&mut self, token: String) -> (r: Result<(), Error>)
        requires
            old(self).valid(),
        ensures
            final(self).valid(),
            !old(self).spec_initialized() ==> r == Err::<(), Error>(Error::NotInitialized)
                && *final(self) == *old(self),
            old(self).spec_initialized() ==> r is Ok && *final(self) == (MobileBackend {
                developer_token: Some(token),
                ..*old(self)
            }),
    {
        if !is_initialized(self.auth) {
            return Err(Error::NotInitialized);
        }
        self.developer_token = Some(token);
        Ok(())
    }

    /// The stored storefront identifier. The session must be initialized.
    pub fn get_storefront_id(&self) -> (r: Result<Option<String>, Error>)
        ensures
            !self.spec_initialized() ==> r == Err::<Option<String>, Error>(Error::NotInitialized),
            self.spec_initialized() ==> r == Ok::<Option<String>, Error>(self.storefront_id),
    {
        if !is_initialized(self.auth) {
            return Err(Error::NotInitialized);
        }
        Ok(self.storefront_id.clone())
    }

    /// Stores the storefront identifier. The session must be initialized.
    pub fn set_storefront(&mut self, storefront: String) -> (r: Result<(), Error>)
        requires
            old(self).valid(),
        ensures
            final(self).valid(),
            !old(self).spec_initialized() ==> r == Err::<(), Error>(Error::NotInitialized)
                && *final(self) == *old(self),
            old(self).spec_initialized() ==> r is Ok && *final(self) == (MobileBackend {
                storefront_id: Some(storefront),
                ..*old(self)
            }),
    {
        if !is_initialized(self.auth) {
            return Err(Error::NotInitialized);
        }
        self.storefront_id = Some(storefront);
        Ok(())
    }

    /// The queue contents and cursor. The session must be initialized.
    pub fn get_queue(&self) -> (r: Result<QueueResponse, Error>)
        requires
            self.valid(),
        ensures
            !self.spec_initialized() ==> r == Err::<QueueResponse, Error>(Error::NotInitialized),
            self.spec_initialized() ==> (r matches Ok(resp) && resp.items@ == self.queue.items@
                && resp.position == self.queue.position),
    {
        if !is_initialized(self.auth) {
            return Err(Error::NotInitialized);
        }
        Ok(QueueResponse { items: clone_tracks(&self.queue.items), position: self.queue.position })
    }

    /// The track under the cursor, or no value with an empty queue. The
    /// session must be initialized.
    pub fn get_current_track(&self) -> (r: Result<Option<MusicKitTrack>, Error>)
        requires
            self.valid(),
        ensures
            !self.spec_initialized() ==> r == Err::<Option<MusicKitTrack>, Error>(
                Error::NotInitialized,
            ),
            self.spec_initialized() && self.queue.items@.len() == 0 ==> r == Ok::<
                Option<MusicKitTrack>,
                Error,
            >(None),
            self.spec_initialized() && self.queue.items@.len() > 0 ==> r == Ok::<
                Option<MusicKitTrack>,
                Error,
            >(Some(self.queue.items@[self.queue.position as int])),
    {
        if !is_initialized(self.auth) {
            return Err(Error::NotInitialized);
        }
        match self.queue.current() {
            Some(t) => Ok(Some(t.clone())),
            None => Ok(None),
        }
    }

    /// A point-in-time snapshot of playback: a pure function of the session
    /// state. The session must be initialized.
    pub fn get_playback_state(&self) -> (r: Result<PlaybackState, Error>)
        requires
            self.valid(),
        ensures
            !self.spec_initialized() ==> r == Err::<PlaybackState, Error>(Error::NotInitialized),
            self.spec_initialized() ==> r == Ok::<PlaybackState, Error>(spec_snapshot(*self)),
    {
        if !is_initialized(self.auth) {
            return Err(Error::NotInitialized);
        }
        let current_track = match self.queue.current() {
            Some(t) => Some(t.clone()),
            None => None,
        };
        let duration_ms = match &current_track {
            Some(t) => t.duration_ms,
            None => 0,
        };
        let progress = progress_permille(self.current_time_ms, duration_ms);
        Ok(
            PlaybackState {
                playing: self.playing,
                current_track,
                current_time_ms: self.current_time_ms,
                duration_ms,
                progress_permille: progress,
                queue_position: self.queue.position,
                shuffle_mode: self.shuffle_mode,
                repeat_mode: self.repeat_mode,
                volume_permille: self.volume_permille,
            },
        )
    }

    /// Starts playback: the playing flag comes on exactly when the queue
    /// holds a track. The session must be initialized.
    pub fn play(&mut self) -> (r: Result<(), Error>)
        requires
            old(self).valid(),
        ensures
            final(self).valid(),
            !old(self).spec_initialized() ==> r == Err::<(), Error>(Error::NotInitialized)
                && *final(self) == *old(self),
            old(self).spec_initialized() ==> r is Ok && *final(self) == (MobileBackend {
                playing: old(self).queue.items@.len() > 0,
                ..*old(self)
            }),
    {
        if !is_initialized(self.auth) {
            return Err(Error::NotInitialized);
        }
        self.playing = self.queue.len() > 0;
        Ok(())
    }

    /// Pauses playback in place. The session must be initialized.
    pub fn pause(&mut self) -> (r: Result<(), Error>)
        requires
            old(self).valid(),
        ensures
            final(self).valid(),
            !old(self).spec_initialized() ==> r == Err::<(), Error>(Error::NotInitialized)
                && *final(self) == *old(self),
            old(self).spec_initialized() ==> r is Ok && *final(self) == (MobileBackend {
                playing: false,
                ..*old(self)
            }),
    {
        if !is_initialized(self.auth) {
            return Err(Error::NotInitialized);
        }
        self.playing = false;
        Ok(())
    }

    /// Stops playback and rewinds to the start of the current track. The
    /// session must be initialized.
    pub fn stop(&mut self) -> (r: Result<(), Error>)
        requires
            old(self).valid(),
        ensures
            final(self).valid(),
            !old(self).spec_initialized() ==> r == Err::<(), Error>(Error::NotInitialized)
                && *final(self) == *old(self),
            old(self).spec_initialized() ==> r is Ok && *final(self) == (MobileBackend {
                playing: false,
                current_time_ms: 0,
                ..*old(self)
            }),
    {
        if !is_initialized(self.auth) {
            return Err(Error::NotInitialized);
        }
        self.playing = false;
        self.current_time_ms = 0;
        Ok(())
    }

    /// Seeks within the current track; a time beyond its end lands on the
    /// end. The session must be initialized.
    pub fn seek(&mut self, time_ms: u64) -> (r: Result<(), Error>)
        requires
            old(self).valid(),
        ensures
            final(self).valid(),
            !old(self).spec_initialized() ==> r == Err::<(), Error>(Error::NotInitialized)
                && *final(self) == *old(self),
            old(self).spec_initialized() ==> r is Ok && *final(self) == (MobileBackend {
                current_time_ms: if time_ms <= spec_current_duration(*old(self)) {
                    time_ms
                } else {
                    spec_current_duration(*old(self))
                },
                ..*old(self)
            }),
    {
        if !is_initialized(self.auth) {
            return Err(Error::NotInitialized);
        }
        let duration_ms = match self.queue.current() {
            Some(t) => t.duration_ms,
            None => 0,
        };
        self.current_time_ms = if time_ms <= duration_ms {
            time_ms
        } else {
            duration_ms
        };
        Ok(())
    }

    /// Sets the volume, clamped into `[0, 1000]` permille. The session must
    /// be initialized.
    pub fn set_volume(&mut self, volume_permille: u32) -> (r: Result<(), Error>)
        requires
            old(self).valid(),
        ensures
            final(self).valid(),
            !old(self).spec_initialized() ==> r == Err::<(), Error>(Error::NotInitialized)
                && *final(self) == *old(self),
            old(self).spec_initialized() ==> r is Ok && *final(self) == (MobileBackend {
                volume_permille: if volume_permille <= 1000 {
                    volume_permille
                } else {
                    1000
                },
                ..*old(self)
            }),
    {
        if !is_initialized(self.auth) {
            return Err(Error::NotInitialized);
        }
        self.volume_permille = if volume_permille <= 1000 {
            volume_permille
        } else {
            1000
        };
        Ok(())
    }

    /// Moves to the following track where one exists, rewinding to its
    /// start and announcing the change; at the end of the queue (or with an
    /// empty queue) playback stops instead. The session must be initialized.
    pub fn next(&mut self) -> (r: Result<(), Error>)
        requires
            old(self).valid(),
        ensures
            final(self).valid(),
            next_post(*old(self), *final(self), r),
    {
        if !is_initialized(self.auth) {
            return Err(Error::NotInitialized);
        }
        if self.queue.advance() {
            self.current_time_ms = 0;
            let track = match self.queue.current() {
                Some(t) => t.clone(),
                None => MusicKitTrack::default(),
            };
            self.pending.push(MusicKitEvent::TrackChange(TrackChangeEvent { track }));
            proof {
                assert(self.pending@.subrange(0, old(self).pending@.len() as int) =~= old(
                    self,
                ).pending@);
            }
        } else {
            self.playing = false;
        }
        Ok(())
    }

    /// Moves to the preceding track where one exists, rewinding to its start
    /// and announcing the change; at the head of the queue nothing changes.
    /// The session must be initialized.
    pub fn previous(&mut self) -> (r: Result<(), Error>)
        requires
            old(self).valid(),
        ensures
            final(self).valid(),
            previous_post(*old(self), *final(self), r),
    {
        if !is_initialized(self.auth) {
            return Err(Error::NotInitialized);
        }
        if self.queue.retreat() {
            self.current_time_ms = 0;
            let track = match self.queue.current() {
                Some(t) => t.clone(),
                None => MusicKitTrack::default(),
            };
            self.pending.push(MusicKitEvent::TrackChange(TrackChangeEvent { track }));
            proof {
                assert(self.pending@.subrange(0, old(self).pending@.len() as int) =~= old(
                    self,
                ).pending@);
            }
        }
        Ok(())
    }

    /// Moves the cursor to the first track carrying the identifier, sets the
    /// playing flag as asked and announces the change; an absent identifier
    /// is rejected and nothing changes. The session must be initialized.
    pub fn skip_to_item(&mut self, track_id: String, start_playing: bool) -> (r: Result<
        (),
        Error,
    >)
        requires
            old(self).valid(),
        ensures
            final(self).valid(),
            skip_to_item_post(*old(self), track_id@, start_playing, *final(self), r),
    {
        if !is_initialized(self.auth) {
            return Err(Error::NotInitialized);
        }
        match self.queue.skip_to_id(&track_id) {
            Ok(_index) => {
                self.current_time_ms = 0;
                self.playing = start_playing;
                let track = match self.queue.current() {
                    Some(t) => t.clone(),
                    None => MusicKitTrack::default(),
                };
                self.pending.push(MusicKitEvent::TrackChange(TrackChangeEvent { track }));
                proof {
                    assert(self.pending@.subrange(0, old(self).pending@.len() as int) =~= old(
                        self,
                    ).pending@);
                }
                Ok(())
            },
            Err(e) => Err(e),
        }
    }

    /// Appends one queue-update notification describing the queue as it now
    /// stands, and reports the mutation as successful.
    fn queue_mutation_succeeded(&mut self) -> (r: QueueOperationResponse)
        requires
            old(self).valid(),
        ensures
            final(self).valid(),
            queue_update_emitted(
                old(self).pending@,
                final(self).pending@,
                old(self).queue.items@,
                old(self).queue.position as int,
            ),
            *final(self) == (MobileBackend { pending: final(self).pending, ..*old(self) }),
            r.success == true,
            r.error is None,
    {
        let items = clone_tracks(&self.queue.items);
        let position = self.queue.position;
        self.pending.push(MusicKitEvent::QueueUpdate(QueueUpdateEvent { items, position }));
        proof {
            assert(self.pending@.subrange(0, old(self).pending@.len() as int) =~= old(
                self,
            ).pending@);
        }
        QueueOperationResponse { success: true, error: None }
    }

    /// Replaces the queue wholesale, as `Queue::set` specifies; on success
    /// playback rewinds and starts exactly when asked to (an empty
    /// replacement leaves nothing to play), and the change is announced. An
    /// out-of-range start position is reported in the envelope, classified
    /// as an invalid parameter, with nothing changed. The session must be
    /// initialized.
    pub fn set_queue(
        &mut self,
        tracks: Vec<MusicKitTrack>,
        start_playing: bool,
        start_position: usize,
    ) -> (r: Result<QueueOperationResponse, Error>)
        requires
            old(self).valid(),
        ensures
            final(self).valid(),
            set_queue_post(
                *old(self),
                tracks@,
                start_playing,
                start_position as int,
                *final(self),
                r,
            ),
    {
        if !is_initialized(self.auth) {
            return Err(Error::NotInitialized);
        }
        let track_count = tracks.len();
        match self.queue.set(tracks, start_position) {
            Ok(()) => {
                self.playing = track_count > 0 && start_playing;
                self.current_time_ms = 0;
                Ok(self.queue_mutation_succeeded())
            },
            Err(e) => Ok(QueueOperationResponse { success: false, error: Some(e.message()) }),
        }
    }

    /// Replaces the queue contents, preserving the cursor where it still
    /// indexes a valid position and clamping it otherwise, as `Queue::update`
    /// specifies; the change is announced. The session must be initialized.
    pub fn update_queue(&mut self, tracks: Vec<MusicKitTrack>) -> (r: Result<
        QueueOperationResponse,
        Error,
    >)
        requires
            old(self).valid(),
        ensures
            final(self).valid(),
            update_queue_post(*old(self), tracks@, *final(self), r),
    {
        if !is_initialized(self.auth) {
            return Err(Error::NotInitialized);
        }
        self.queue.update(tracks);
        Ok(self.queue_mutation_succeeded())
    }

    /// Inserts one track before the given index, as `Queue::insert_at`
    /// specifies; the change is announced. An out-of-range position is
    /// reported in the envelope, classified as an invalid parameter, with
    /// nothing changed. The session must be initialized.
    pub fn insert_track_at_position(&mut self, track: MusicKitTrack, position: usize) -> (r:
        Result<QueueOperationResponse, Error>)
        requires
            old(self).valid(),
        ensures
            final(self).valid(),
            insert_track_at_position_post(*old(self), track, position as int, *final(self), r),
    {
        if !is_initialized(self.auth) {
            return Err(Error::NotInitialized);
        }
        match self.queue.insert_at(track, position) {
            Ok(()) => Ok(self.queue_mutation_succeeded()),
            Err(e) => Ok(QueueOperationResponse { success: false, error: Some(e.message()) }),
        }
    }

    /// Inserts a span of tracks before the given index, as
    /// `Queue::insert_many_at` specifies; the change is announced. An
    /// out-of-range position is reported in the envelope, classified as an
    /// invalid parameter, with nothing changed. The session must be
    /// initialized.
    pub fn insert_tracks_at_position(&mut self, tracks: Vec<MusicKitTrack>, position: usize) -> (r:
        Result<QueueOperationResponse, Error>)
        requires
            old(self).valid(),
        ensures
            final(self).valid(),
            insert_tracks_at_position_post(*old(self), tracks@, position as int, *final(self), r),
    {
        if !is_initialized(self.auth) {
            return Err(Error::NotInitialized);
        }
        match self.queue.insert_many_at(tracks, position) {
            Ok(()) => Ok(self.queue_mutation_succeeded()),
            Err(e) => Ok(QueueOperationResponse { success: false, error: Some(e.message()) }),
        }
    }

    /// Removes the first track carrying the identifier, as
    /// `Queue::remove_by_id` specifies; the change is announced. An absent
    /// identifier is reported in the envelope, classified as a queue error,
    /// with the queue unchanged — its length and order stay identical. The
    /// session must be initialized.
    pub fn remove_track_from_queue(&mut self, track_id: String) -> (r: Result<
        QueueOperationResponse,
        Error,
    >)
        requires
            old(self).valid(),
        ensures
            final(self).valid(),
            remove_track_from_queue_post(*old(self), track_id@, *final(self), r),
    {
        if !is_initialized(self.auth) {
            return Err(Error::NotInitialized);
        }
        match self.queue.remove_by_id(&track_id) {
            Ok(_index) => Ok(self.queue_mutation_succeeded()),
            Err(e) => Ok(QueueOperationResponse { success: false, error: Some(e.message()) }),
        }
    }

    /// Inserts one track immediately after the cursor, as
    /// `Queue::insert_next` specifies; the change is announced. The session
    /// must be initialized.
    pub fn insert_track_next(&mut self, track: MusicKitTrack) -> (r: Result<
        QueueOperationResponse,
        Error,
    >)
        requires
            old(self).valid(),
        ensures
            final(self).valid(),
            insert_track_next_post(*old(self), track, *final(self), r),
    {
        if !is_initialized(self.auth) {
            return Err(Error::NotInitialized);
        }
        self.queue.insert_next(track);
        Ok(self.queue_mutation_succeeded())
    }

    /// Appends one track at the tail of the queue; the change is announced.
    /// The session must be initialized.
    pub fn insert_track_last(&mut self, track: MusicKitTrack) -> (r: Result<
        QueueOperationResponse,
        Error,
    >)
        requires
            old(self).valid(),
        ensures
            final(self).valid(),
            insert_track_last_post(*old(self), track, *final(self), r),
    {
        if !is_initialized(self.auth) {
            return Err(Error::NotInitialized);
        }
        self.queue.insert_last(track);
        Ok(self.queue_mutation_succeeded())
    }

    /// Appends a span of tracks at the tail of the queue; the change is
    /// announced. The session must be initialized.
    pub fn append_tracks_to_queue(&mut self, tracks: Vec<MusicKitTrack>) -> (r: Result<
        QueueOperationResponse,
        Error,
    >)
        requires
            old(self).valid(),
        ensures
            final(self).valid(),
            append_tracks_to_queue_post(*old(self), tracks@, *final(self), r),
    {
        if !is_initialized(self.auth) {
            return Err(Error::NotInitialized);
        }
        self.queue.append(tracks);
        Ok(self.queue_mutation_succeeded())
    }

    /// Hands out every pending notification in arrival order and empties the
    /// buffer, so that none is delivered twice.
    pub fn drain_events(&mut self) -> (r: Vec<MusicKitEvent>)
        requires
            old(self).valid(),
        ensures
            final(self).valid(),
            r@ == old(self).pending@,
            final(self).pending@ =~= Seq::<MusicKitEvent>::empty(),
            *final(self) == (MobileBackend { pending: final(self).pending, ..*old(self) }),
    {
        let mut drained: Vec<MusicKitEvent> = Vec::new();
        core::mem::swap(&mut drained, &mut self.pending);
        drained
    }
}

} // verus!
