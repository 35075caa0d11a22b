//! The command router: the public entry point of the layer.
//!
//! One method per command. Each validates the argument shape, forwards to
//! the backend selected at session construction, and returns the backend's
//! result in the public response types. A validation failure is reported
//! immediately, without reaching the backend and without consulting backend
//! state. The router holds no session state of its own beyond the backend.

use vstd::prelude::*;

use crate::desktop::{spec_inert_snapshot, DesktopBackend};
use crate::error::Error;
use crate::events::MusicKitEvent;
use crate::mobile::{
    append_tracks_to_queue_post, insert_track_at_position_post, insert_track_last_post,
    insert_track_next_post, insert_tracks_at_position_post, next_post, previous_post,
    remove_track_from_queue_post, set_queue_post, skip_to_item_post, spec_snapshot,
    spec_current_duration, update_queue_post, MobileBackend,
};
use crate::models::{
    AuthorizationResponse, AuthorizationStatusResponse, MusicKitTrack, PlaybackState,
    QueueOperationResponse, QueueResponse,
    UnauthorizeResponse,
};

verus! {

/// The two conforming implementations of the operation set; one is selected
/// once, at session construction.
pub enum Backend {
    Mobile(MobileBackend),
    Desktop(DesktopBackend),
}

/// Whether every track in the sequence carries a non-empty identifier.
pub open spec fn spec_all_ids_nonempty(s: Seq<MusicKitTrack>) -> bool {
    forall|k: int| 0 <= k < s.len() ==> s[k].id@.len() > 0
}

/// Reports whether the track carries a non-empty identifier.
fn track_id_nonempty(t: &MusicKitTrack) -> (r: bool)
    ensures
        r == (t.id@.len() > 0),
{
    !t.id.as_str().is_empty()
}

/// Reports whether every track in the list carries a non-empty identifier.
fn all_ids_nonempty(tracks: &Vec<MusicKitTrack>) -> (r: bool)
    ensures
        r == spec_all_ids_nonempty(tracks@),
{
    let mut i: usize = 0;
    while i < tracks.len()
        invariant
            i <= tracks@.len(),
            forall|k: int| 0 <= k < i ==> tracks@[k].id@.len() > 0,
        decreases tracks@.len() - i,
    {
        if !track_id_nonempty(&tracks[i]) {
            return false;
        }
        i = i + 1;
    }
    true
}

/// The session: one backend, chosen at construction, behind the uniform
/// command surface.
pub struct MusicKitPlugin {
    pub backend: Backend,
}

impl MusicKitPlugin {
    /// The session invariant: the backend's own invariant.
    pub open spec fn valid(&self) -> bool {
        match self.backend {
            Backend::Mobile(m) => m.valid(),
            Backend::Desktop(_) => true,
        }
    }

    /// A session over the full-featured backend, whose authorization
    /// attempts are granted exactly when `consent_granted` holds.
    pub fn mobile(consent_granted: bool) -> (p: MusicKitPlugin)
        ensures
            p.valid(),
            (p.backend matches Backend::Mobile(m) && m.auth
                == crate::auth::AuthorizationState::Uninitialized && m.consent_granted
                == consent_granted && m.user_token is None && m.developer_token is None
                && m.storefront_id is None && m.queue.items@ =~= Seq::<MusicKitTrack>::empty()
                && m.queue.position == 0 && m.playing == false && m.current_time_ms == 0
                && m.volume_permille == 1000 && m.shuffle_mode
                == crate::models::ShuffleMode::Off && m.repeat_mode
                == crate::models::RepeatMode::NoRepeat && m.pending@ =~= Seq::<
                MusicKitEvent,
            >::empty()),
    {
        MusicKitPlugin { backend: Backend::Mobile(MobileBackend::new(consent_granted)) }
    }

    /// A session over the capability-limited backend.
    pub fn desktop() -> (p: MusicKitPlugin)
        ensures
            p.valid(),
            p.backend matches Backend::Desktop(_),
    {
        MusicKitPlugin { backend: Backend::Desktop(DesktopBackend::new()) }
    }

    /// Sets the session up. On the full-featured backend an uninitialized
    /// session becomes initialized and initializing again is a no-op
    /// success; the capability-limited backend succeeds without doing
    /// anything.
    pub fn initialize(&mut self) -> (r: Result<(), Error>)
        requires
            old(self).valid(),
        ensures
            final(self).valid(),
            r is Ok,
            old(self).backend matches Backend::Desktop(_) ==> *final(self) == *old(self),
            old(self).backend matches Backend::Mobile(m) ==> (final(self).backend
                matches Backend::Mobile(m2) && {
                &&& m.auth == crate::auth::AuthorizationState::Uninitialized ==> m2 == (
                MobileBackend { auth: crate::auth::AuthorizationState::NotAuthorized, ..m })
                &&& m.auth != crate::auth::AuthorizationState::Uninitialized ==> m2 == m
            }),
    {
        match &mut self.backend {
            Backend::Mobile(m) => m.initialize(),
            Backend::Desktop(d) => d.initialize(),
        }
    }

    /// Attempts authorization. On the full-featured backend the outcome
    /// follows the session's standing consent and the state machine moves
    /// accordingly; the capability-limited backend reports not authorized
    /// with the fixed unsupported-platform explanation.
    pub fn authorize(&mut self) -> (r: Result<AuthorizationResponse, Error>)
        requires
            old(self).valid(),
        ensures
            final(self).valid(),
            old(self).backend matches Backend::Desktop(_) ==> *final(self) == *old(self) && (
            r matches Ok(resp) && resp.status@ == "notAuthorized"@ && (resp.error matches Some(m)
                && m@ == "Not supported on desktop"@)),
            old(self).backend matches Backend::Mobile(m) ==> (final(self).backend
                matches Backend::Mobile(m2) && {
                &&& !m.spec_initialized() ==> r == Err::<AuthorizationResponse, Error>(
                    Error::NotInitialized,
                ) && m2 == m
                &&& m.spec_initialized() ==> {
                    let outcome = if m.consent_granted {
                        crate::auth::AuthorizeOutcome::Granted
                    } else {
                        crate::auth::AuthorizeOutcome::Denied
                    };
                    &&& m2 == (MobileBackend {
                        auth: crate::auth::spec_state_after_authorize(outcome),
                        ..m
                    })
                    &&& (r matches Ok(resp) && resp.status@
                        == crate::auth::spec_authorize_status_string(outcome) && resp.error
                        is None)
                }
            }),
    {
        match &mut self.backend {
            Backend::Mobile(m) => m.authorize(),
            Backend::Desktop(d) => d.authorize(),
        }
    }

    /// Drops authorization. On the full-featured backend the session
    /// returns to the uninitialized state; the capability-limited backend
    /// reports unauthorized without doing anything.
    pub fn unauthorize(&mut self) -> (r: Result<UnauthorizeResponse, Error>)
        requires
            old(self).valid(),
        ensures
            final(self).valid(),
            old(self).backend matches Backend::Desktop(_) ==> *final(self) == *old(self) && (
            r matches Ok(resp) && resp.status@ == "unauthorized"@ && resp.error is None),
            old(self).backend matches Backend::Mobile(m) ==> (final(self).backend
                matches Backend::Mobile(m2) && {
                &&& !m.spec_initialized() ==> r == Err::<UnauthorizeResponse, Error>(
                    Error::NotInitialized,
                ) && m2 == m
                &&& m.spec_initialized() ==> m2 == (MobileBackend {
                    auth: crate::auth::AuthorizationState::Uninitialized,
                    ..m
                }) && (r matches Ok(resp) && resp.status@ == "unauthorized"@ && resp.error
                    is None)
            }),
    {
        match &mut self.backend {
            Backend::Mobile(m) => m.unauthorize(),
            Backend::Desktop(d) => d.unauthorize(),
        }
    }

    /// Reports where the session stands in the authorization lifecycle: a
    /// pure query, answered in every state and never a transition. The
    /// capability-limited backend always reports not authorized.
    pub fn get_authorization_status(&self) -> (r: Result<AuthorizationStatusResponse, Error>)
        ensures
            self.backend matches Backend::Desktop(_) ==> (r matches Ok(resp) && resp.status@
                == "notAuthorized"@),
            self.backend matches Backend::Mobile(m) ==> (r matches Ok(resp) && resp.status@
                == crate::auth::spec_status_string(m.auth)),
    {
        match &self.backend {
            Backend::Mobile(m) => m.get_authorization_status(),
            Backend::Desktop(d) => d.get_authorization_status(),
        }
    }

    /// The stored user token; the capability-limited backend reports no
    /// value.
    pub fn get_user_token(&self) -> (r: Result<Option<String>, Error>)
        ensures
            self.backend matches Backend::Desktop(_) ==> r == Ok::<Option<String>, Error>(None),
            self.backend matches Backend::Mobile(m) ==> {
                &&& !m.spec_initialized() ==> r == Err::<Option<String>, Error>(
                    Error::NotInitialized,
                )
                &&& m.spec_initialized() ==> r == Ok::<Option<String>, Error>(m.user_token)
            },
    {
        match &self.backend {
            Backend::Mobile(m) => m.get_user_token(),
            Backend::Desktop(d) => d.get_user_token(),
        }
    }

    /// The stored developer token; the capability-limited backend reports
    /// no value.
    pub fn get_developer_token(&self) -> (r: Result<Option<String>, Error>)
        ensures
            self.backend matches Backend::Desktop(_) ==> r == Ok::<Option<String>, Error>(None),
            self.backend matches Backend::Mobile(m) ==> {
                &&& !m.spec_initialized() ==> r == Err::<Option<String>, Error>(
                    Error::NotInitialized,
                )
                &&& m.spec_initialized() ==> r == Ok::<Option<String>, Error>(m.developer_token)
            },
    {
        match &self.backend {
            Backend::Mobile(m) => m.get_developer_token(),
            Backend::Desktop(d) => d.get_developer_token(),
        }
    }

    /// Stores the user token; the capability-limited backend accepts and
    /// discards it.
    pub fn set_user_token(&mut self, token: String) -> (r: Result<(), Error>)
        requires
            old(self).valid(),
        ensures
            final(self).valid(),
            old(self).backend matches Backend::Desktop(_) ==> *final(self) == *old(self) && r
                is Ok,
            old(self).backend matches Backend::Mobile(m) ==> (final(self).backend
                matches Backend::Mobile(m2) && {
                &&& !m.spec_initialized() ==> r == Err::<(), Error>(Error::NotInitialized) && m2
                    == m
                &&& m.spec_initialized() ==> r is Ok && m2 == (MobileBackend {
                    user_token: Some(token),
                    ..m
                })
            }),
    {
        match &mut self.backend {
            Backend::Mobile(m) => m.set_user_token(token),
            Backend::Desktop(d) => d.set_user_token(token),
        }
    }

    /// Stores the developer token; the capability-limited backend accepts
    /// and discards it.
    pub fn set_developer_token(&mut self, token: String) -> (r: Result<(), Error>)
        requires
            old(self).valid(),
        ensures
            final(self).valid(),
            old(self).backend matches Backend::Desktop(_) ==> *final(self) == *old(self) && r
                is Ok,
            old(self).backend matches Backend::Mobile(m) ==> (final(self).backend
                matches Backend::Mobile(m2) && {
                &&& !m.spec_initialized() ==> r == Err::<(), Error>(Error::NotInitialized) && m2
                    == m
                &&& m.spec_initialized() ==> r is Ok && m2 == (MobileBackend {
                    developer_token: Some(token),
                    ..m
                })
            }),
    {
        match &mut self.backend {
            Backend::Mobile(m) => m.set_developer_token(token),
            Backend::Desktop(d) => d.set_developer_token(token),
        }
    }

    /// The stored storefront identifier; the capability-limited backend
    /// reports no value.
    pub fn get_storefront_id(&self) -> (r: Result<Option<String>, Error>)
        ensures
            self.backend matches Backend::Desktop(_) ==> r == Ok::<Option<String>, Error>(None),
            self.backend matches Backend::Mobile(m) ==> {
                &&& !m.spec_initialized() ==> r == Err::<Option<String>, Error>(
                    Error::NotInitialized,
                )
                &&& m.spec_initialized() ==> r == Ok::<Option<String>, Error>(m.storefront_id)
            },
    {
        match &self.backend {
            Backend::Mobile(m) => m.get_storefront_id(),
            Backend::Desktop(d) => d.get_storefront_id(),
        }
    }

    /// The queue contents and cursor; the capability-limited backend
    /// reports a well-formed empty queue, never an error.
    pub fn get_queue(&self) -> (r: Result<QueueResponse, Error>)
        requires
            self.valid(),
        ensures
            self.backend matches Backend::Desktop(_) ==> (r matches Ok(resp) && resp.items@ =~=
                Seq::<MusicKitTrack>::empty() && resp.position == 0),
            self.backend matches Backend::Mobile(m) ==> {
                &&& !m.spec_initialized() ==> r == Err::<QueueResponse, Error>(
                    Error::NotInitialized,
                )
                &&& m.spec_initialized() ==> (r matches Ok(resp) && resp.items@ == m.queue.items@
                    && resp.position == m.queue.position)
            },
    {
        match &self.backend {
            Backend::Mobile(m) => m.get_queue(),
            Backend::Desktop(d) => d.get_queue(),
        }
    }

    /// Starts playback; the capability-limited backend succeeds without
    /// doing anything.
    pub fn play(&mut self) -> (r: Result<(), Error>)
        requires
            old(self).valid(),
        ensures
            final(self).valid(),
            old(self).backend matches Backend::Desktop(_) ==> *final(self) == *old(self) && r
                is Ok,
            old(self).backend matches Backend::Mobile(m) ==> (final(self).backend
                matches Backend::Mobile(m2) && {
                &&& !m.spec_initialized() ==> r == Err::<(), Error>(Error::NotInitialized) && m2
                    == m
                &&& m.spec_initialized() ==> r is Ok && m2 == (MobileBackend {
                    playing: m.queue.items@.len() > 0,
                    ..m
                })
            }),
    {
        match &mut self.backend {
            Backend::Mobile(m) => m.play(),
            Backend::Desktop(d) => d.play(),
        }
    }

    /// Pauses playback; the capability-limited backend succeeds without
    /// doing anything.
    pub fn pause(&mut self) -> (r: Result<(), Error>)
        requires
            old(self).valid(),
        ensures
            final(self).valid(),
            old(self).backend matches Backend::Desktop(_) ==> *final(self) == *old(self) && r
                is Ok,
            old(self).backend matches Backend::Mobile(m) ==> (final(self).backend
                matches Backend::Mobile(m2) && {
                &&& !m.spec_initialized() ==> r == Err::<(), Error>(Error::NotInitialized) && m2
                    == m
                &&& m.spec_initialized() ==> r is Ok && m2 == (MobileBackend {
                    playing: false,
                    ..m
                })
            }),
    {
        match &mut self.backend {
            Backend::Mobile(m) => m.pause(),
            Backend::Desktop(d) => d.pause(),
        }
    }

    /// Stops playback and rewinds; the capability-limited backend succeeds
    /// without doing anything.
    pub fn stop(&mut self) -> (r: Result<(), Error>)
        requires
            old(self).valid(),
        ensures
            final(self).valid(),
            old(self).backend matches Backend::Desktop(_) ==> *final(self) == *old(self) && r
                is Ok,
            old(self).backend matches Backend::Mobile(m) ==> (final(self).backend
                matches Backend::Mobile(m2) && {
                &&& !m.spec_initialized() ==> r == Err::<(), Error>(Error::NotInitialized) && m2
                    == m
                &&& m.spec_initialized() ==> r is Ok && m2 == (MobileBackend {
                    playing: false,
                    current_time_ms: 0,
                    ..m
                })
            }),
    {
        match &mut self.backend {
            Backend::Mobile(m) => m.stop(),
            Backend::Desktop(d) => d.stop(),
        }
    }

    /// Seeks within the current track, clamped to its end; the
    /// capability-limited backend succeeds without doing anything.
    pub fn seek(&mut self, time_ms: u64) -> (r: Result<(), Error>)
        requires
            old(self).valid(),
        ensures
            final(self).valid(),
            old(self).backend matches Backend::Desktop(_) ==> *final(self) == *old(self) && r
                is Ok,
            old(self).backend matches Backend::Mobile(m) ==> (final(self).backend
                matches Backend::Mobile(m2) && {
                &&& !m.spec_initialized() ==> r == Err::<(), Error>(Error::NotInitialized) && m2
                    == m
                &&& m.spec_initialized() ==> r is Ok && m2 == (MobileBackend {
                    current_time_ms: if time_ms <= spec_current_duration(m) {
                        time_ms
                    } else {
                        spec_current_duration(m)
                    },
                    ..m
                })
            }),
    {
        match &mut self.backend {
            Backend::Mobile(m) => m.seek(time_ms),
            Backend::Desktop(d) => d.seek(time_ms),
        }
    }

    /// Moves to the following track, as the backend defines it; the
    /// capability-limited backend succeeds without doing anything.
    pub fn next(&mut self) -> (r: Result<(), Error>)
        requires
            old(self).valid(),
        ensures
            final(self).valid(),
            old(self).backend matches Backend::Desktop(_) ==> *final(self) == *old(self) && r
                is Ok,
            old(self).backend matches Backend::Mobile(m) ==> (final(self).backend
                matches Backend::Mobile(m2) && next_post(m, m2, r)),
    {
        match &mut self.backend {
            Backend::Mobile(m) => m.next(),
            Backend::Desktop(d) => d.next(),
        }
    }

    /// Moves to the preceding track, as the backend defines it; the
    /// capability-limited backend succeeds without doing anything.
    pub fn previous(&mut self) -> (r: Result<(), Error>)
        requires
            old(self).valid(),
        ensures
            final(self).valid(),
            old(self).backend matches Backend::Desktop(_) ==> *final(self) == *old(self) && r
                is Ok,
            old(self).backend matches Backend::Mobile(m) ==> (final(self).backend
                matches Backend::Mobile(m2) && previous_post(m, m2, r)),
    {
        match &mut self.backend {
            Backend::Mobile(m) => m.previous(),
            Backend::Desktop(d) => d.previous(),
        }
    }

    /// Skips to the first track carrying the identifier. An empty
    /// identifier is rejected before any backend is consulted; the
    /// capability-limited backend succeeds without doing anything.
    pub fn skip_to_item(&mut self, track_id: String, start_playing: bool) -> (r: Result<
        (),
        Error,
    >)
        requires
            old(self).valid(),
        ensures
            final(self).valid(),
            track_id@.len() == 0 ==> *final(self) == *old(self) && (r matches Err(
                Error::InvalidTrackIdentifier(m),
            ) && m@ == track_id@),
            track_id@.len() > 0 && (old(self).backend matches Backend::Desktop(_)) ==> *final(self) == *old(self) && r is Ok,
            old(self).backend matches Backend::Mobile(m) ==> track_id@.len() > 0 ==> (final(self).backend matches Backend::Mobile(m2) && skip_to_item_post(
                m,
                track_id@,
                start_playing,
                m2,
                r,
            )),
    {
        if track_id.as_str().is_empty() {
            return Err(Error::InvalidTrackIdentifier(track_id));
        }
        match &mut self.backend {
            Backend::Mobile(m) => m.skip_to_item(track_id, start_playing),
            Backend::Desktop(d) => d.skip_to_item(track_id, start_playing),
        }
    }

    /// Sets the volume, clamped into scale; the capability-limited backend
    /// succeeds without doing anything.
    pub fn set_volume(&mut self, volume_permille: u32) -> (r: Result<(), Error>)
        requires
            old(self).valid(),
        ensures
            final(self).valid(),
            old(self).backend matches Backend::Desktop(_) ==> *final(self) == *old(self) && r
                is Ok,
            old(self).backend matches Backend::Mobile(m) ==> (final(self).backend
                matches Backend::Mobile(m2) && {
                &&& !m.spec_initialized() ==> r == Err::<(), Error>(Error::NotInitialized) && m2
                    == m
                &&& m.spec_initialized() ==> r is Ok && m2 == (MobileBackend {
                    volume_permille: if volume_permille <= 1000 {
                        volume_permille
                    } else {
                        1000
                    },
                    ..m
                })
            }),
    {
        match &mut self.backend {
            Backend::Mobile(m) => m.set_volume(volume_permille),
            Backend::Desktop(d) => d.set_volume(volume_permille),
        }
    }

    /// Replaces the queue wholesale. A track with an empty identifier is
    /// rejected before any backend is consulted; the capability-limited
    /// backend reports the mutation as unsupported; the full-featured
    /// backend applies it as its contract specifies.
    pub fn set_queue(
        &mut self,
        tracks: Vec<MusicKitTrack>,
        start_playing: bool,
        start_position: usize,
    ) -> (r: Result<QueueOperationResponse, Error>)
        requires
            old(self).valid(),
        ensures
            final(self).valid(),
            !spec_all_ids_nonempty(tracks@) ==> *final(self) == *old(self) && (r matches Err(
                Error::InvalidTrackFormat(m),
            ) && m@ == "a track has an empty identifier"@),
            spec_all_ids_nonempty(tracks@) && (old(self).backend matches Backend::Desktop(_))
                ==> *final(self) == *old(self) && (r matches Ok(resp) && resp.success == false && (
            resp.error matches Some(m) && m@ == "Not supported on desktop"@)),
            old(self).backend matches Backend::Mobile(m) ==> spec_all_ids_nonempty(tracks@) ==> (
            final(self).backend matches Backend::Mobile(m2) && set_queue_post(
                m,
                tracks@,
                start_playing,
                start_position as int,
                m2,
                r,
            )),
    {
        if !all_ids_nonempty(&tracks) {
            return Err(
                Error::InvalidTrackFormat(String::from_str("a track has an empty identifier")),
            );
        }
        match &mut self.backend {
            Backend::Mobile(m) => m.set_queue(tracks, start_playing, start_position),
            Backend::Desktop(d) => d.set_queue(tracks, start_playing, start_position),
        }
    }

    /// Replaces the queue contents preserving the cursor where possible. A
    /// track with an empty identifier is rejected before any backend is
    /// consulted; the capability-limited backend reports the mutation as
    /// unsupported.
    pub fn update_queue(&mut self, tracks: Vec<MusicKitTrack>) -> (r: Result<
        QueueOperationResponse,
        Error,
    >)
        requires
            old(self).valid(),
        ensures
            final(self).valid(),
            !spec_all_ids_nonempty(tracks@) ==> *final(self) == *old(self) && (r matches Err(
                Error::InvalidTrackFormat(m),
            ) && m@ == "a track has an empty identifier"@),
            spec_all_ids_nonempty(tracks@) && (old(self).backend matches Backend::Desktop(_))
                ==> *final(self) == *old(self) && (r matches Ok(resp) && resp.success == false && (
            resp.error matches Some(m) && m@ == "Not supported on desktop"@)),
            old(self).backend matches Backend::Mobile(m) ==> spec_all_ids_nonempty(tracks@) ==> (
            final(self).backend matches Backend::Mobile(m2) && update_queue_post(
                m,
                tracks@,
                m2,
                r,
            )),
    {
        if !all_ids_nonempty(&tracks) {
            return Err(
                Error::InvalidTrackFormat(String::from_str("a track has an empty identifier")),
            );
        }
        match &mut self.backend {
            Backend::Mobile(m) => m.update_queue(tracks),
            Backend::Desktop(d) => d.update_queue(tracks),
        }
    }

    /// Inserts one track before the given index. A track with an empty
    /// identifier is rejected before any backend is consulted; the
    /// capability-limited backend reports the mutation as unsupported.
    pub fn insert_track_at_position(&mut self, track: MusicKitTrack, position: usize) -> (r:
        Result<QueueOperationResponse, Error>)
        requires
            old(self).valid(),
        ensures
            final(self).valid(),
            track.id@.len() == 0 ==> *final(self) == *old(self) && (r matches Err(
                Error::InvalidTrackFormat(m),
            ) && m@ == "a track has an empty identifier"@),
            track.id@.len() > 0 && (old(self).backend matches Backend::Desktop(_)) ==> *final(self) == *old(self) && (r matches Ok(resp) && resp.success == false && (resp.error
                matches Some(m) && m@ == "Not supported on desktop"@)),
            old(self).backend matches Backend::Mobile(m) ==> track.id@.len() > 0 ==> (final(self).backend matches Backend::Mobile(m2) && insert_track_at_position_post(
                m,
                track,
                position as int,
                m2,
                r,
            )),
    {
        if !track_id_nonempty(&track) {
            return Err(
                Error::InvalidTrackFormat(String::from_str("a track has an empty identifier")),
            );
        }
        match &mut self.backend {
            Backend::Mobile(m) => m.insert_track_at_position(track, position),
            Backend::Desktop(d) => d.insert_track_at_position(track, position),
        }
    }

    /// Inserts a span of tracks before the given index. A track with an
    /// empty identifier is rejected before any backend is consulted; the
    /// capability-limited backend reports the mutation as unsupported.
    pub fn insert_tracks_at_position(&mut self, tracks: Vec<MusicKitTrack>, position: usize) -> (r:
        Result<QueueOperationResponse, Error>)
        requires
            old(self).valid(),
        ensures
            final(self).valid(),
            !spec_all_ids_nonempty(tracks@) ==> *final(self) == *old(self) && (r matches Err(
                Error::InvalidTrackFormat(m),
            ) && m@ == "a track has an empty identifier"@),
            spec_all_ids_nonempty(tracks@) && (old(self).backend matches Backend::Desktop(_))
                ==> *final(self) == *old(self) && (r matches Ok(resp) && resp.success == false && (
            resp.error matches Some(m) && m@ == "Not supported on desktop"@)),
            old(self).backend matches Backend::Mobile(m) ==> spec_all_ids_nonempty(tracks@) ==> (
            final(self).backend matches Backend::Mobile(m2) && insert_tracks_at_position_post(
                m,
                tracks@,
                position as int,
                m2,
                r,
            )),
    {
        if !all_ids_nonempty(&tracks) {
            return Err(
                Error::InvalidTrackFormat(String::from_str("a track has an empty identifier")),
            );
        }
        match &mut self.backend {
            Backend::Mobile(m) => m.insert_tracks_at_position(tracks, position),
            Backend::Desktop(d) => d.insert_tracks_at_position(tracks, position),
        }
    }

    /// Removes the first track carrying the identifier. An empty identifier
    /// is rejected before any backend is consulted; the capability-limited
    /// backend reports the mutation as unsupported.
    pub fn remove_track_from_queue(&mut self, track_id: String) -> (r: Result<
        QueueOperationResponse,
        Error,
    >)
        requires
            old(self).valid(),
        ensures
            final(self).valid(),
            track_id@.len() == 0 ==> *final(self) == *old(self) && (r matches Err(
                Error::InvalidTrackIdentifier(m),
            ) && m@ == track_id@),
            track_id@.len() > 0 && (old(self).backend matches Backend::Desktop(_)) ==> *final(self) == *old(self) && (r matches Ok(resp) && resp.success == false && (resp.error
                matches Some(m) && m@ == "Not supported on desktop"@)),
            old(self).backend matches Backend::Mobile(m) ==> track_id@.len() > 0 ==> (final(self).backend matches Backend::Mobile(m2) && remove_track_from_queue_post(
                m,
                track_id@,
                m2,
                r,
            )),
    {
        if track_id.as_str().is_empty() {
            return Err(Error::InvalidTrackIdentifier(track_id));
        }
        match &mut self.backend {
            Backend::Mobile(m) => m.remove_track_from_queue(track_id),
            Backend::Desktop(d) => d.remove_track_from_queue(track_id),
        }
    }

    /// Inserts one track immediately after the cursor. A track with an
    /// empty identifier is rejected before any backend is consulted; the
    /// capability-limited backend reports the mutation as unsupported.
    pub fn insert_track_next(&mut self, track: MusicKitTrack) -> (r: Result<
        QueueOperationResponse,
        Error,
    >)
        requires
            old(self).valid(),
        ensures
            final(self).valid(),
            track.id@.len() == 0 ==> *final(self) == *old(self) && (r matches Err(
                Error::InvalidTrackFormat(m),
            ) && m@ == "a track has an empty identifier"@),
            track.id@.len() > 0 && (old(self).backend matches Backend::Desktop(_)) ==> *final(self) == *old(self) && (r matches Ok(resp) && resp.success == false && (resp.error
                matches Some(m) && m@ == "Not supported on desktop"@)),
            old(self).backend matches Backend::Mobile(m) ==> track.id@.len() > 0 ==> (final(self).backend matches Backend::Mobile(m2) && insert_track_next_post(m, track, m2, r)),
    {
        if !track_id_nonempty(&track) {
            return Err(
                Error::InvalidTrackFormat(String::from_str("a track has an empty identifier")),
            );
        }
        match &mut self.backend {
            Backend::Mobile(m) => m.insert_track_next(track),
            Backend::Desktop(d) => d.insert_track_next(track),
        }
    }

    /// Appends one track at the tail of the queue. A track with an empty
    /// identifier is rejected before any backend is consulted; the
    /// capability-limited backend reports the mutation as unsupported.
    pub fn insert_track_last(&mut self, track: MusicKitTrack) -> (r: Result<
        QueueOperationResponse,
        Error,
    >)
        requires
            old(self).valid(),
        ensures
            final(self).valid(),
            track.id@.len() == 0 ==> *final(self) == *old(self) && (r matches Err(
                Error::InvalidTrackFormat(m),
            ) && m@ == "a track has an empty identifier"@),
            track.id@.len() > 0 && (old(self).backend matches Backend::Desktop(_)) ==> *final(self) == *old(self) && (r matches Ok(resp) && resp.success == false && (resp.error
                matches Some(m) && m@ == "Not supported on desktop"@)),
            old(self).backend matches Backend::Mobile(m) ==> track.id@.len() > 0 ==> (final(self).backend matches Backend::Mobile(m2) && insert_track_last_post(m, track, m2, r)),
    {
        if !track_id_nonempty(&track) {
            return Err(
                Error::InvalidTrackFormat(String::from_str("a track has an empty identifier")),
            );
        }
        match &mut self.backend {
            Backend::Mobile(m) => m.insert_track_last(track),
            Backend::Desktop(d) => d.insert_track_last(track),
        }
    }

    /// Appends a span of tracks at the tail of the queue. A track with an
    /// empty identifier is rejected before any backend is consulted; the
    /// capability-limited backend reports the mutation as unsupported.
    pub fn append_tracks_to_queue(&mut self, tracks: Vec<MusicKitTrack>) -> (r: Result<
        QueueOperationResponse,
        Error,
    >)
        requires
            old(self).valid(),
        ensures
            final(self).valid(),
            !spec_all_ids_nonempty(tracks@) ==> *final(self) == *old(self) && (r matches Err(
                Error::InvalidTrackFormat(m),
            ) && m@ == "a track has an empty identifier"@),
            spec_all_ids_nonempty(tracks@) && (old(self).backend matches Backend::Desktop(_))
                ==> *final(self) == *old(self) && (r matches Ok(resp) && resp.success == false && (
            resp.error matches Some(m) && m@ == "Not supported on desktop"@)),
            old(self).backend matches Backend::Mobile(m) ==> spec_all_ids_nonempty(tracks@) ==> (
            final(self).backend matches Backend::Mobile(m2) && append_tracks_to_queue_post(
                m,
                tracks@,
                m2,
                r,
            )),
    {
        if !all_ids_nonempty(&tracks) {
            return Err(
                Error::InvalidTrackFormat(String::from_str("a track has an empty identifier")),
            );
        }
        match &mut self.backend {
            Backend::Mobile(m) => m.append_tracks_to_queue(tracks),
            Backend::Desktop(d) => d.append_tracks_to_queue(tracks),
        }
    }

    /// The track under the cursor; the capability-limited backend reports
    /// no value, never an error.
    pub fn get_current_track(&self) -> (r: Result<Option<MusicKitTrack>, Error>)
        requires
            self.valid(),
        ensures
            self.backend matches Backend::Desktop(_) ==> r == Ok::<Option<MusicKitTrack>, Error>(
                None,
            ),
            self.backend matches Backend::Mobile(m) ==> {
                &&& !m.spec_initialized() ==> r == Err::<Option<MusicKitTrack>, Error>(
                    Error::NotInitialized,
                )
                &&& m.spec_initialized() && m.queue.items@.len() == 0 ==> r == Ok::<
                    Option<MusicKitTrack>,
                    Error,
                >(None)
                &&& m.spec_initialized() && m.queue.items@.len() > 0 ==> r == Ok::<
                    Option<MusicKitTrack>,
                    Error,
                >(Some(m.queue.items@[m.queue.position as int]))
            },
    {
        match &self.backend {
            Backend::Mobile(m) => m.get_current_track(),
            Backend::Desktop(d) => d.get_current_track(),
        }
    }

    /// A point-in-time snapshot of playback: a pure function of the session
    /// state, so two queries with no intervening mutation report identical
    /// snapshots. The capability-limited backend reports the inert default,
    /// never an error.
    pub fn get_playback_state(&self) -> (r: Result<PlaybackState, Error>)
        requires
            self.valid(),
        ensures
            self.backend matches Backend::Desktop(_) ==> r == Ok::<PlaybackState, Error>(
                spec_inert_snapshot(),
            ),
            self.backend matches Backend::Mobile(m) ==> {
                &&& !m.spec_initialized() ==> r == Err::<PlaybackState, Error>(
                    Error::NotInitialized,
                )
                &&& m.spec_initialized() ==> r == Ok::<PlaybackState, Error>(spec_snapshot(m))
            },
    {
        match &self.backend {
            Backend::Mobile(m) => m.get_playback_state(),
            Backend::Desktop(d) => d.get_playback_state(),
        }
    }

    /// Hands out every pending notification in arrival order and empties
    /// the buffer; the capability-limited backend never buffers any.
    pub fn drain_events(&mut self) -> (r: Vec<MusicKitEvent>)
        requires
            old(self).valid(),
        ensures
            final(self).valid(),
            old(self).backend matches Backend::Desktop(_) ==> *final(self) == *old(self) && r@ =~=
                Seq::<MusicKitEvent>::empty(),
            old(self).backend matches Backend::Mobile(m) ==> (final(self).backend
                matches Backend::Mobile(m2) && r@ == m.pending@ && m2.pending@ =~= Seq::<
                MusicKitEvent,
            >::empty() && m2 == (MobileBackend { pending: m2.pending, ..m })),
    {
        match &mut self.backend {
            Backend::Mobile(m) => m.drain_events(),
            Backend::Desktop(_) => Vec::new(),
        }
    }
}

} // verus!
