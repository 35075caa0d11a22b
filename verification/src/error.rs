//! The closed error taxonomy shared by every component.
//!
//! A validation failure is raised by the command router before any backend is
//! consulted; a backend failure is classified into one of these kinds at the
//! boundary and returned as a typed result, never as an uncaught fault. No
//! kind is fatal: the session stays usable after every error.

use vstd::prelude::*;

verus! {

/// Every failure the layer can report.
#[derive(Debug, PartialEq, Eq)]
pub enum Error {
    /// A command other than `initialize`/`get_authorization_status` was
    /// issued while the session was uninitialized.
    NotInitialized,
    /// `initialize` was reported on an already-initialized session.
    AlreadyInitialized,
    /// The native layer refused to authorize the session.
    AuthorizationFailed,
    /// A track identifier argument was empty or matched no track.
    InvalidTrackIdentifier(String),
    /// A track value was malformed (for instance, an empty identifier).
    InvalidTrackFormat(String),
    /// An out-of-range position, volume or time argument.
    InvalidParameter(String),
    /// A queue operation could not be applied (for instance, removal of an
    /// absent track).
    QueueError(String),
    /// The capability is absent on the current backend.
    PlatformNotSupported,
    /// An opaque native failure; the message is preserved verbatim.
    MusicKitError(String),
    /// A failure of the underlying call channel.
    Tauri(String),
}

/// The human-readable text of an error kind: a fixed prefix, followed by the
/// preserved detail where the kind carries one.
pub open spec fn spec_message(e: &Error) -> Seq<char> {
    match e {
        Error::NotInitialized => "Not initialized"@,
        Error::AlreadyInitialized => "Already initialized"@,
        Error::AuthorizationFailed => "Authorization failed"@,
        Error::InvalidTrackIdentifier(s) => "Invalid track identifier: "@ + s@,
        Error::InvalidTrackFormat(s) => "Invalid track format: "@ + s@,
        Error::InvalidParameter(s) => "Invalid parameter: "@ + s@,
        Error::QueueError(s) => "Queue error: "@ + s@,
        Error::PlatformNotSupported => "Platform not supported"@,
        Error::MusicKitError(s) => "MusicKit error: "@ + s@,
        Error::Tauri(s) => "Tauri error: "@ + s@,
    }
}

impl Error {
    /// Renders the error as its documented message text.
    pub fn message(&self) -> (r: String)
        ensures
            r@ == spec_message(self),
    {
        match self {
            Error::NotInitialized => String::from_str("Not initialized"),
            Error::AlreadyInitialized => String::from_str("Already initialized"),
            Error::AuthorizationFailed => String::from_str("Authorization failed"),
            Error::InvalidTrackIdentifier(s) => String::from_str(
                "Invalid track identifier: ",
            ).concat(s.as_str()),
            Error::InvalidTrackFormat(s) => String::from_str("Invalid track format: ").concat(
                s.as_str(),
            ),
            Error::InvalidParameter(s) => String::from_str("Invalid parameter: ").concat(
                s.as_str(),
            ),
            Error::QueueError(s) => String::from_str("Queue error: ").concat(s.as_str()),
            Error::PlatformNotSupported => String::from_str("Platform not supported"),
            Error::MusicKitError(s) => String::from_str("MusicKit error: ").concat(s.as_str()),
            Error::Tauri(s) => String::from_str("Tauri error: ").concat(s.as_str()),
        }
    }
}

/// The conventional result type of the layer.
pub type Result<T> = core::result::Result<T, Error>;

} // verus!
