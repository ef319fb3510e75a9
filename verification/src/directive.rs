//! What the host has to do for the orchestrator.
//!
//! The orchestrator decides; it never sends anything itself. Each call hands
//! back what is to be sent, and the host sends it.
use crate::ids::{ActorId, MessageId};
use crate::messages::{
    GameSessionAction, GameSessionActionView, GameSessionEvent, GameSessionEventView,
    WordleAction, WordleActionView,
};
use crate::error::SessionError;
use vstd::prelude::*;

verus! {

/// The delay, in scheduling ticks, after which a started game is checked for a timeout.
pub const TIMEOUT_DELAY: u32 = 200;

/// What is to be sent once a message has been handled.
#[derive(Debug, PartialEq, Eq)]
pub enum Directive {
    /// Answer the sender of the message with the event. The invocation is complete.
    Reply(GameSessionEvent),
    /// Send the request to the guessing service, report the identifier that the
    /// request was sent under, and park the invocation until it is woken.
    Request(WordleAction),
    /// Send the event to the user, as a message of its own.
    Notify { user: ActorId, event: GameSessionEvent },
    /// Send nothing.
    Ignore,
}

/// The view of a directive.
pub enum DirectiveView {
    Reply(GameSessionEventView),
    Request(WordleActionView),
    Notify { user: ActorId, event: GameSessionEventView },
    Ignore,
}

impl View for Directive {
    type V = DirectiveView;

    open spec fn view(&self) -> DirectiveView {
        match self {
            Directive::Reply(event) => DirectiveView::Reply(event@),
            Directive::Request(action) => DirectiveView::Request(action@),
            Directive::Notify { user, event } => DirectiveView::Notify {
                user: *user,
                event: event@,
            },
            Directive::Ignore => DirectiveView::Ignore,
        }
    }
}

impl Clone for Directive {
    fn clone(&self) -> (copy: Directive)
        ensures
            copy@ == self@,
    {
        match self {
            Directive::Reply(event) => Directive::Reply(event.clone()),
            Directive::Request(action) => Directive::Request(action.clone()),
            Directive::Notify { user, event } => Directive::Notify {
                user: *user,
                event: event.clone(),
            },
            Directive::Ignore => Directive::Ignore,
        }
    }
}

/// The view of what a call hands back: of the directive, or the rejection itself.
pub open spec fn outcome_view(outcome: Result<Directive, SessionError>) -> Result<
    DirectiveView,
    SessionError,
> {
    match outcome {
        Ok(directive) => Ok(directive@),
        Err(error) => Err(error),
    }
}

/// A message that the orchestrator is to send to itself after a delay: the
/// reminder that the game which `session_id` started for `user` may have run
/// out of time.
#[derive(Clone, Copy, Debug, PartialEq, Eq)]
pub struct Timer {
    pub user: ActorId,
    pub session_id: MessageId,
    /// Number of scheduling ticks to wait before the message is delivered.
    pub delay: u32,
}

impl Timer {
    /// The message that is delivered when the timer fires.
    pub open spec fn spec_action(&self) -> GameSessionActionView {
        GameSessionActionView::CheckGameStatus { user: self.user, session_id: self.session_id }
    }

    pub fn action(&self) -> (action: GameSessionAction)
        ensures
            action@ == self.spec_action(),
    {
        GameSessionAction::CheckGameStatus { user: self.user, session_id: self.session_id }
    }
}

} // verus!
