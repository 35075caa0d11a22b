//! The session authorization state machine.
//!
//! States move `Uninitialized -> NotAuthorized` on `initialize` (calling it
//! again while already initialized is a no-op success), then to `Authorized`
//! or back to `NotAuthorized` on `authorize` depending on the consent
//! outcome, or to `Error` when the native layer fails; `unauthorize` returns
//! the session to `Uninitialized`. Querying the status never transitions.

use vstd::prelude::*;

verus! {

/// The session-scoped authorization lifecycle state.
#[derive(Debug, Clone, Copy, PartialEq, Eq, Structural)]
pub enum AuthorizationState {
    /// `initialize` has not succeeded yet.
    Uninitialized,
    /// Initialized, but the user has not granted authorization.
    NotAuthorized,
    /// Initialized and authorized.
    Authorized,
    /// An authorization attempt failed in the native layer.
    Error,
}

/// What an authorization attempt came back with: the user granted consent,
/// declined it, or the native layer failed outright.
#[derive(Debug, Clone, Copy, PartialEq, Eq, Structural)]
pub enum AuthorizeOutcome {
    Granted,
    Denied,
    Failed,
}

/// The state an initialized session is in after an authorization attempt
/// with the given outcome.
pub open spec fn spec_state_after_authorize(outcome: AuthorizeOutcome) -> AuthorizationState {
    match outcome {
        AuthorizeOutcome::Granted => AuthorizationState::Authorized,
        AuthorizeOutcome::Denied => AuthorizationState::NotAuthorized,
        AuthorizeOutcome::Failed => AuthorizationState::Error,
    }
}

/// Applies an authorization outcome to an initialized session.
pub fn state_after_authorize(outcome: AuthorizeOutcome) -> (s: AuthorizationState)
    ensures
        s == spec_state_after_authorize(outcome),
{
    match outcome {
        AuthorizeOutcome::Granted => AuthorizationState::Authorized,
        AuthorizeOutcome::Denied => AuthorizationState::NotAuthorized,
        AuthorizeOutcome::Failed => AuthorizationState::Error,
    }
}

/// The status string that `get_authorization_status` reports for a state.
/// The `Error` state reads as not authorized: the session is initialized but
/// holds no authorization.
pub open spec fn spec_status_string(state: AuthorizationState) -> Seq<char> {
    match state {
        AuthorizationState::Uninitialized => "notInitialized"@,
        AuthorizationState::NotAuthorized => "notAuthorized"@,
        AuthorizationState::Authorized => "authorized"@,
        AuthorizationState::Error => "notAuthorized"@,
    }
}

/// Renders a state as its documented status string.
pub fn status_string(state: AuthorizationState) -> (r: String)
    ensures
        r@ == spec_status_string(state),
{
    match state {
        AuthorizationState::Uninitialized => String::from_str("notInitialized"),
        AuthorizationState::NotAuthorized => String::from_str("notAuthorized"),
        AuthorizationState::Authorized => String::from_str("authorized"),
        AuthorizationState::Error => String::from_str("notAuthorized"),
    }
}

/// The status string that an `authorize` response reports for an outcome.
pub open spec fn spec_authorize_status_string(outcome: AuthorizeOutcome) -> Seq<char> {
    match outcome {
        AuthorizeOutcome::Granted => "authorized"@,
        AuthorizeOutcome::Denied => "notAuthorized"@,
        AuthorizeOutcome::Failed => "error"@,
    }
}

/// Renders an authorization outcome as the status string of its response.
pub fn authorize_status_string(outcome: AuthorizeOutcome) -> (r: String)
    ensures
        r@ == spec_authorize_status_string(outcome),
{
    match outcome {
        AuthorizeOutcome::Granted => String::from_str("authorized"),
        AuthorizeOutcome::Denied => String::from_str("notAuthorized"),
        AuthorizeOutcome::Failed => String::from_str("error"),
    }
}

/// Whether a state counts as initialized: every command other than
/// `initialize` and `get_authorization_status` demands this.
pub open spec fn spec_is_initialized(state: AuthorizationState) -> bool {
    state != AuthorizationState::Uninitialized
}

/// Reports whether the state counts as initialized.
pub fn is_initialized(state: AuthorizationState) -> (r: bool)
    ensures
        r == spec_is_initialized(state),
{
    !(state == AuthorizationState::Uninitialized)
}

} // verus!
