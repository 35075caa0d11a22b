//! Value types of the playback layer: tracks, response envelopes and the
//! playback-state snapshot.
//!
//! A track is immutable once constructed; queue operations copy or move whole
//! track values. Durations and playback positions are carried in whole
//! milliseconds, and the volume as a permille value in `[0, 1000]`, so that
//! every field is exact.

use vstd::prelude::*;

verus! {

/// A media item as the queue holds it. The identifier is opaque and
/// platform-assigned; an empty identifier is rejected by the command router
/// before it reaches any backend.
#[derive(Debug, PartialEq, Eq)]
pub struct MusicKitTrack {
    pub id: String,
    pub title: String,
    pub artist: String,
    pub album: String,
    /// Duration of the track in whole milliseconds.
    pub duration_ms: u64,
    pub artwork_url: Option<String>,
    pub is_explicit: bool,
    pub is_playable: bool,
}

impl Clone for MusicKitTrack {
    fn clone(&self) -> (r: Self)
        ensures
            r == *self,
    {
        MusicKitTrack {
            id: self.id.clone(),
            title: self.title.clone(),
            artist: self.artist.clone(),
            album: self.album.clone(),
            duration_ms: self.duration_ms,
            artwork_url: self.artwork_url.clone(),
            is_explicit: self.is_explicit,
            is_playable: self.is_playable,
        }
    }
}

impl Default for MusicKitTrack {
    fn default() -> (r: Self)
        ensures
            r.id@ == Seq::<char>::empty(),
            r.title@ == Seq::<char>::empty(),
            r.artist@ == Seq::<char>::empty(),
            r.album@ == Seq::<char>::empty(),
            r.duration_ms == 0,
            r.artwork_url is None,
            r.is_explicit == false,
            r.is_playable == true,
    {
        MusicKitTrack {
            id: String::new(),
            title: String::new(),
            artist: String::new(),
            album: String::new(),
            duration_ms: 0,
            artwork_url: None,
            is_explicit: false,
            is_playable: true,
        }
    }
}

/// Copies a track list; the copy's sequence of tracks equals the original's.
pub fn clone_tracks(v: &Vec<MusicKitTrack>) -> (r: Vec<MusicKitTrack>)
    ensures
        r@ == v@,
{
    let r = v.clone();
    proof {
        assert(r@ =~= v@);
    }
    r
}

/// A track in the flattened shape that crosses the native boundary.
#[derive(Debug, PartialEq, Eq)]
pub struct MusicKitTrackData {
    pub id: String,
    pub title: String,
    pub artist_name: String,
    pub album_name: String,
    pub genre_names: String,
    pub artwork: String,
    pub duration_in_millis: i32,
}

impl Clone for MusicKitTrackData {
    fn clone(&self) -> (r: Self)
        ensures
            r == *self,
    {
        MusicKitTrackData {
            id: self.id.clone(),
            title: self.title.clone(),
            artist_name: self.artist_name.clone(),
            album_name: self.album_name.clone(),
            genre_names: self.genre_names.clone(),
            artwork: self.artwork.clone(),
            duration_in_millis: self.duration_in_millis,
        }
    }
}

/// Flattens a track into its boundary shape: names are carried over, genres
/// are absent on this path, a missing artwork reference becomes the empty
/// string, and the duration is clamped into the signed millisecond range.
pub fn track_to_data(t: &MusicKitTrack) -> (r: MusicKitTrackData)
    ensures
        r.id@ == t.id@,
        r.title@ == t.title@,
        r.artist_name@ == t.artist@,
        r.album_name@ == t.album@,
        r.genre_names@ == Seq::<char>::empty(),
        t.artwork_url matches Some(u) ==> r.artwork@ == u@,
        t.artwork_url is None ==> r.artwork@ == Seq::<char>::empty(),
        t.duration_ms <= i32::MAX ==> r.duration_in_millis == t.duration_ms,
        t.duration_ms > i32::MAX ==> r.duration_in_millis == i32::MAX,
{
    let artwork = match &t.artwork_url {
        Some(u) => u.clone(),
        None => String::new(),
    };
    let duration_in_millis: i32 = if t.duration_ms <= i32::MAX as u64 {
        t.duration_ms as i32
    } else {
        i32::MAX
    };
    MusicKitTrackData {
        id: t.id.clone(),
        title: t.title.clone(),
        artist_name: t.artist.clone(),
        album_name: t.album.clone(),
        genre_names: String::new(),
        artwork,
        duration_in_millis,
    }
}

/// The shuffle setting of the playback snapshot.
#[derive(Debug, Clone, Copy, PartialEq, Eq, Structural)]
pub enum ShuffleMode {
    Off,
    Songs,
    Albums,
}

/// The documented string form of a shuffle mode.
pub open spec fn spec_shuffle_mode_string(m: ShuffleMode) -> Seq<char> {
    match m {
        ShuffleMode::Off => "off"@,
        ShuffleMode::Songs => "songs"@,
        ShuffleMode::Albums => "albums"@,
    }
}

/// Renders a shuffle mode as its documented string form.
pub fn shuffle_mode_string(m: ShuffleMode) -> (r: String)
    ensures
        r@ == spec_shuffle_mode_string(m),
{
    match m {
        ShuffleMode::Off => String::from_str("off"),
        ShuffleMode::Songs => String::from_str("songs"),
        ShuffleMode::Albums => String::from_str("albums"),
    }
}

/// The repeat setting of the playback snapshot.
#[derive(Debug, Clone, Copy, PartialEq, Eq, Structural)]
pub enum RepeatMode {
    NoRepeat,
    One,
    All,
}

/// The documented string form of a repeat mode.
pub open spec fn spec_repeat_mode_string(m: RepeatMode) -> Seq<char> {
    match m {
        RepeatMode::NoRepeat => "none"@,
        RepeatMode::One => "one"@,
        RepeatMode::All => "all"@,
    }
}

/// Renders a repeat mode as its documented string form.
pub fn repeat_mode_string(m: RepeatMode) -> (r: String)
    ensures
        r@ == spec_repeat_mode_string(m),
{
    match m {
        RepeatMode::NoRepeat => String::from_str("none"),
        RepeatMode::One => String::from_str("one"),
        RepeatMode::All => String::from_str("all"),
    }
}

/// A point-in-time snapshot of playback. It is never mutated: each change of
/// state produces a new snapshot. Times are in whole milliseconds; progress
/// and volume are permille values in `[0, 1000]`.
#[derive(Debug, PartialEq, Eq)]
pub struct PlaybackState {
    pub playing: bool,
    pub current_track: Option<MusicKitTrack>,
    pub current_time_ms: u64,
    pub duration_ms: u64,
    pub progress_permille: u32,
    pub queue_position: usize,
    pub shuffle_mode: ShuffleMode,
    pub repeat_mode: RepeatMode,
    pub volume_permille: u32,
}

impl Clone for PlaybackState {
    fn clone(&self) -> (r: Self)
        ensures
            r == *self,
    {
        let current_track = match &self.current_track {
            Some(t) => Some(t.clone()),
            None => None,
        };
        PlaybackState {
            playing: self.playing,
            current_track,
            current_time_ms: self.current_time_ms,
            duration_ms: self.duration_ms,
            progress_permille: self.progress_permille,
            queue_position: self.queue_position,
            shuffle_mode: self.shuffle_mode,
            repeat_mode: self.repeat_mode,
            volume_permille: self.volume_permille,
        }
    }
}

/// How far into a track playback stands, in permille of its duration: zero
/// for a zero-length track, and the elapsed share rounded down otherwise.
/// The elapsed time is clamped to the duration first, so the result never
/// exceeds one thousand.
pub open spec fn spec_progress_permille(current_ms: int, duration_ms: int) -> int {
    if duration_ms == 0 {
        0
    } else if current_ms > duration_ms {
        1000
    } else {
        (current_ms * 1000) / duration_ms
    }
}

/// Computes the playback progress in permille of the duration.
pub fn progress_permille(current_ms: u64, duration_ms: u64) -> (r: u32)
    ensures
        r as int == spec_progress_permille(current_ms as int, duration_ms as int),
        r <= 1000,
{
    if duration_ms == 0 {
        0
    } else if current_ms > duration_ms {
        1000
    } else {
        let wide: u128 = (current_ms as u128) * 1000 / (duration_ms as u128);
        proof {
            assert((current_ms as int) * 1000 <= (duration_ms as int) * 1000) by (nonlinear_arith)
                requires
                    current_ms <= duration_ms,
            ;
            assert((current_ms as int) * 1000 / (duration_ms as int) <= 1000) by (nonlinear_arith)
                requires
                    0 < duration_ms,
                    (current_ms as int) * 1000 <= (duration_ms as int) * 1000,
            ;
        }
        wide as u32
    }
}

/// The envelope of an `authorize` call: a status string, and an explanation
/// where one is owed.
#[derive(Debug, PartialEq, Eq)]
pub struct AuthorizationResponse {
    pub status: String,
    pub error: Option<String>,
}

/// The envelope of an `unauthorize` call.
#[derive(Debug, PartialEq, Eq)]
pub struct UnauthorizeResponse {
    pub status: String,
    pub error: Option<String>,
}

/// The envelope of an authorization-status query.
#[derive(Debug, PartialEq, Eq)]
pub struct AuthorizationStatusResponse {
    pub status: String,
}

/// The envelope of a queue query: the tracks in order and the cursor.
#[derive(Debug, PartialEq, Eq)]
pub struct QueueResponse {
    pub items: Vec<MusicKitTrack>,
    pub position: usize,
}

/// The envelope of a queue mutation: success, or a human-readable message.
#[derive(Debug, PartialEq, Eq)]
pub struct QueueOperationResponse {
    pub success: bool,
    pub error: Option<String>,
}

/// An asynchronous notification that the queue changed.
#[derive(Debug, PartialEq, Eq)]
pub struct QueueUpdateEvent {
    pub items: Vec<MusicKitTrack>,
    pub position: usize,
}

/// An asynchronous notification that the current track changed.
#[derive(Debug, PartialEq, Eq)]
pub struct TrackChangeEvent {
    pub track: MusicKitTrack,
}

/// An asynchronous error notification.
#[derive(Debug, PartialEq, Eq)]
pub struct ErrorEvent {
    pub error: String,
    pub code: Option<String>,
}

} // verus!
