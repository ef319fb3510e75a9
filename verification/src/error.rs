//! Why the orchestrator turns a call down.
use vstd::prelude::*;

verus! {

/// A rejection. The call that is rejected leaves every session as it was.
#[derive(Clone, Copy, Debug, PartialEq, Eq, Structural)]
pub enum SessionError {
    /// A start-game request from a user whose game is in progress.
    UserInGame,
    /// A guess from a user who has no game in progress.
    UserNotInGame,
    /// A guess that is not five lowercase letters.
    InvalidWord,
    /// A configuration that names no guessing service.
    InvalidServiceAddress,
    /// The host reports a request that the session did not ask for.
    RequestNotExpected,
}

impl SessionError {
    /// The text that goes with the rejection.
    pub fn message(&self) -> (text: &'static str)
        ensures
            text@ == match *self {
                SessionError::UserInGame => "The user is in the game"@,
                SessionError::UserNotInGame => "The user is not in the game"@,
                SessionError::InvalidWord => "Invalid word"@,
                SessionError::InvalidServiceAddress => "Invalid address of the guessing service"@,
                SessionError::RequestNotExpected => "No request is expected for the user"@,
            },
    {
        match self {
            SessionError::UserInGame => "The user is in the game",
            SessionError::UserNotInGame => "The user is not in the game",
            SessionError::InvalidWord => "Invalid word",
            SessionError::InvalidServiceAddress => "Invalid address of the guessing service",
            SessionError::RequestNotExpected => "No request is expected for the user",
        }
    }
}

} // verus!
