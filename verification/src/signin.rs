//! The Google sign-in flow of the user application, as a state machine: it
//! names the outside work (ask Google for a token, ask the server to sign
//! in) and decides on what comes back.

use vstd::prelude::*;

verus! {

/// The status the sign-in page shows.
#[derive(Clone, Copy, Debug, PartialEq, Eq, Structural)]
pub enum SigninStatus {
    Busy,
    NoSuchUser,
}

/// The next thing the sign-in flow does.
#[derive(Clone, Debug)]
pub enum SigninAction {
    /// Open the Google sign-in and wait for its token.
    RequestGoogleToken,
    /// Sign in to the server with the Google token.
    FetchSignin(String),
    /// Store the CSRF token, go to the profile page and stop the loader.
    Succeed(String),
    /// Show this status and stop.
    SetStatus(Option<SigninStatus>),
}

/// What came back of the last action.
#[derive(Clone, Debug)]
pub enum SigninEvent {
    /// Google answered with a token, or the sign-in was abandoned (`None`).
    GoogleToken(Option<String>),
    /// The server signed in and sent the CSRF token, or knows no such user
    /// (`None`).
    ServerSignin(Option<String>),
}

/// The first step of the Google sign-in.
pub fn signin_google_start() -> (r: SigninAction)
    ensures
        r is RequestGoogleToken,
{
    SigninAction::RequestGoogleToken
}

/// The step of the Google sign-in that follows `event`: a token is sent to
/// the server; an abandoned sign-in clears the status; a sign-in succeeds
/// with the CSRF token the server sent; an unknown user is shown so.
pub fn signin_google_step(event: SigninEvent) -> (r: SigninAction)
    ensures
        match event {
            SigninEvent::GoogleToken(Some(token)) => r matches SigninAction::FetchSignin(t) && t@
                == token@,
            SigninEvent::GoogleToken(None) => r == SigninAction::SetStatus(None),
            SigninEvent::ServerSignin(Some(csrf)) => r matches SigninAction::Succeed(c) && c@
                == csrf@,
            SigninEvent::ServerSignin(None) => r == SigninAction::SetStatus(
                Some(SigninStatus::NoSuchUser),
            ),
        },
{
    match event {
        SigninEvent::GoogleToken(Some(token)) => SigninAction::FetchSignin(token),
        SigninEvent::GoogleToken(None) => SigninAction::SetStatus(None),
        SigninEvent::ServerSignin(Some(csrf)) => SigninAction::Succeed(csrf),
        SigninEvent::ServerSignin(None) => SigninAction::SetStatus(Some(SigninStatus::NoSuchUser)),
    }
}

} // verus!
