//! The outbound event channel.
//!
//! The backend writes notifications into a pending buffer and the calling
//! application drains it asynchronously; no other state is shared between the
//! event path and the command path. Each state change appends at most one
//! event, and draining empties the buffer, so no event is delivered twice.

use vstd::prelude::*;

use crate::models::{ErrorEvent, MusicKitTrack, PlaybackState, QueueUpdateEvent, TrackChangeEvent};

verus! {

/// An asynchronous notification pushed to the calling application,
/// uncorrelated with any specific command invocation.
#[derive(Debug, PartialEq, Eq)]
pub enum MusicKitEvent {
    /// A full playback-state snapshot.
    StateUpdate(PlaybackState),
    /// The queue contents or cursor changed.
    QueueUpdate(QueueUpdateEvent),
    /// The current track changed.
    TrackChange(TrackChangeEvent),
    /// An asynchronous error.
    PlaybackError(ErrorEvent),
}

/// Exactly one queue-update notification carrying `items` and `position` was
/// appended to the pending buffer, and everything before it is untouched.
pub open spec fn queue_update_emitted(
    old_pending: Seq<MusicKitEvent>,
    new_pending: Seq<MusicKitEvent>,
    items: Seq<MusicKitTrack>,
    position: int,
) -> bool {
    &&& new_pending.len() == old_pending.len() + 1
    &&& new_pending.subrange(0, old_pending.len() as int) == old_pending
    &&& (new_pending.last() matches MusicKitEvent::QueueUpdate(e) && e.items@ == items
        && e.position as int == position)
}

/// Exactly one track-change notification carrying `track` was appended to
/// the pending buffer, and everything before it is untouched.
pub open spec fn track_change_emitted(
    old_pending: Seq<MusicKitEvent>,
    new_pending: Seq<MusicKitEvent>,
    track: MusicKitTrack,
) -> bool {
    &&& new_pending.len() == old_pending.len() + 1
    &&& new_pending.subrange(0, old_pending.len() as int) == old_pending
    &&& (new_pending.last() matches MusicKitEvent::TrackChange(e) && e.track == track)
}

} // verus!
