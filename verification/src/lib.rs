//! A media command-dispatch and playback-queue state layer.
//!
//! One uniform command surface drives an audio-playback session across two
//! backends of unequal fidelity: a full-featured mobile backend that owns a
//! real queue, and a capability-limited desktop stub that answers every
//! command with a fixed, well-defined result. The queue model, the
//! authorization state machine, the error taxonomy and the command router
//! are verified; the transport that carries commands to native code lives
//! outside this crate.

pub mod auth;
pub mod commands;
pub mod desktop;
pub mod error;
pub mod events;
pub mod mobile;
pub mod models;
pub mod queue;

pub use commands::Backend;
pub use commands::MusicKitPlugin;
pub use desktop::DesktopBackend;
pub use error::Error;
pub use error::Result;
pub use events::MusicKitEvent;
pub use mobile::MobileBackend;
pub use models::AuthorizationResponse;
pub use models::AuthorizationStatusResponse;
pub use models::ErrorEvent;
pub use models::MusicKitTrack;
pub use models::MusicKitTrackData;
pub use models::PlaybackState;
pub use models::QueueOperationResponse;
pub use models::QueueResponse;
pub use models::QueueUpdateEvent;
pub use models::RepeatMode;
pub use models::ShuffleMode;
pub use models::TrackChangeEvent;
pub use models::UnauthorizeResponse;
