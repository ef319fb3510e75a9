//! The messages that cross the orchestrator's boundary.
//!
//! Each message that owns heap data has a view: the same shape over `Seq`,
//! which is what the contracts of the orchestrator speak of.
use crate::ids::{ActorId, MessageId};
use vstd::prelude::*;

verus! {

/// How a finished game ended.
#[derive(Clone, Copy, Debug, PartialEq, Eq, Structural)]
pub enum GameStatus {
    Win,
    Lose,
}

/// Copies a list of letter positions.
pub(crate) fn copy_positions(positions: &Vec<u8>) -> (copy: Vec<u8>)
    ensures
        copy@ == positions@,
{
    let copy = positions.clone();
    assert(copy@ =~= positions@);
    copy
}

/// What the guessing service answers to a request.
#[derive(Debug, PartialEq, Eq)]
pub enum WordleEvent {
    /// A round was started for `user`.
    GameStarted { user: ActorId },
    /// A guess of `user` was scored: the positions whose letter is right, and
    /// the positions whose letter occurs elsewhere in the secret.
    WordChecked { user: ActorId, correct_positions: Vec<u8>, contained_in_word: Vec<u8> },
}

/// The view of an event of the guessing service.
pub enum WordleEventView {
    GameStarted { user: ActorId },
    WordChecked { user: ActorId, correct_positions: Seq<u8>, contained_in_word: Seq<u8> },
}

impl WordleEventView {
    /// The user whose request this event answers.
    pub open spec fn user(self) -> ActorId {
        match self {
            WordleEventView::GameStarted { user } => user,
            WordleEventView::WordChecked { user, .. } => user,
        }
    }

    /// The secret is fully guessed when all five positions are reported right, in order.
    pub open spec fn has_guessed(self) -> bool {
        match self {
            WordleEventView::GameStarted { .. } => false,
            WordleEventView::WordChecked { correct_positions, .. } => correct_positions == seq![
                0u8,
                1u8,
                2u8,
                3u8,
                4u8,
            ],
        }
    }

    /// The event as it is passed on to the user: the same feedback, without the user identity.
    pub open spec fn to_session_event(self) -> GameSessionEventView {
        match self {
            WordleEventView::GameStarted { .. } => GameSessionEventView::StartSuccess,
            WordleEventView::WordChecked {
                correct_positions,
                contained_in_word,
                ..
            } => GameSessionEventView::CheckWordResult { correct_positions, contained_in_word },
        }
    }
}

impl View for WordleEvent {
    type V = WordleEventView;

    open spec fn view(&self) -> WordleEventView {
        match self {
            WordleEvent::GameStarted { user } => WordleEventView::GameStarted { user: *user },
            WordleEvent::WordChecked {
                user,
                correct_positions,
                contained_in_word,
            } => WordleEventView::WordChecked {
                user: *user,
                correct_positions: correct_positions@,
                contained_in_word: contained_in_word@,
            },
        }
    }
}

impl Clone for WordleEvent {
    fn clone(&self) -> (copy: WordleEvent)
        ensures
            copy@ == self@,
    {
        match self {
            WordleEvent::GameStarted { user } => WordleEvent::GameStarted { user: *user },
            WordleEvent::WordChecked {
                user,
                correct_positions,
                contained_in_word,
            } => WordleEvent::WordChecked {
                user: *user,
                correct_positions: copy_positions(correct_positions),
                contained_in_word: copy_positions(contained_in_word),
            },
        }
    }
}

impl WordleEvent {
    pub fn get_user(&self) -> (user: &ActorId)
        ensures
            *user == self@.user(),
    {
        match self {
            WordleEvent::GameStarted { user } => user,
            WordleEvent::WordChecked { user, .. } => user,
        }
    }

    pub fn has_guessed(&self) -> (guessed: bool)
        ensures
            guessed == self@.has_guessed(),
    {
        match self {
            WordleEvent::GameStarted { .. } => false,
            WordleEvent::WordChecked { correct_positions, .. } => {
                let guessed = correct_positions.len() == 5 && correct_positions[0] == 0
                    && correct_positions[1] == 1 && correct_positions[2] == 2
                    && correct_positions[3] == 3 && correct_positions[4] == 4;
                proof {
                    let all = seq![0u8, 1u8, 2u8, 3u8, 4u8];
                    if guessed {
                        assert(correct_positions@ =~= all);
                    } else if correct_positions@ == all {
                        assert(all.len() == 5);
                        assert(all[0] == 0 && all[1] == 1 && all[2] == 2 && all[3] == 3 && all[4]
                            == 4);
                    }
                }
                guessed
            },
        }
    }

    pub fn to_session_event(&self) -> (event: GameSessionEvent)
        ensures
            event@ == self@.to_session_event(),
    {
        match self {
            WordleEvent::GameStarted { .. } => GameSessionEvent::StartSuccess,
            WordleEvent::WordChecked {
                correct_positions,
                contained_in_word,
                ..
            } => GameSessionEvent::CheckWordResult {
                correct_positions: copy_positions(correct_positions),
                contained_in_word: copy_positions(contained_in_word),
            },
        }
    }
}

/// What the orchestrator tells a user.
#[derive(Debug, PartialEq, Eq)]
pub enum GameSessionEvent {
    StartSuccess,
    CheckWordResult { correct_positions: Vec<u8>, contained_in_word: Vec<u8> },
    GameOver(GameStatus),
}

/// The view of an event for a user.
pub enum GameSessionEventView {
    StartSuccess,
    CheckWordResult { correct_positions: Seq<u8>, contained_in_word: Seq<u8> },
    GameOver(GameStatus),
}

impl View for GameSessionEvent {
    type V = GameSessionEventView;

    open spec fn view(&self) -> GameSessionEventView {
        match self {
            GameSessionEvent::StartSuccess => GameSessionEventView::StartSuccess,
            GameSessionEvent::CheckWordResult {
                correct_positions,
                contained_in_word,
            } => GameSessionEventView::CheckWordResult {
                correct_positions: correct_positions@,
                contained_in_word: contained_in_word@,
            },
            GameSessionEvent::GameOver(status) => GameSessionEventView::GameOver(*status),
        }
    }
}

impl Clone for GameSessionEvent {
    fn clone(&self) -> (copy: GameSessionEvent)
        ensures
            copy@ == self@,
    {
        match self {
            GameSessionEvent::StartSuccess => GameSessionEvent::StartSuccess,
            GameSessionEvent::CheckWordResult {
                correct_positions,
                contained_in_word,
            } => GameSessionEvent::CheckWordResult {
                correct_positions: copy_positions(correct_positions),
                contained_in_word: copy_positions(contained_in_word),
            },
            GameSessionEvent::GameOver(status) => GameSessionEvent::GameOver(*status),
        }
    }
}

/// What the orchestrator asks of the guessing service.
#[derive(Debug, PartialEq, Eq)]
pub enum WordleAction {
    StartGame { user: ActorId },
    CheckWord { user: ActorId, word: String },
}

/// The view of a request to the guessing service.
pub enum WordleActionView {
    StartGame { user: ActorId },
    CheckWord { user: ActorId, word: Seq<char> },
}

impl WordleActionView {
    /// The user on whose behalf the request is made.
    pub open spec fn user(self) -> ActorId {
        match self {
            WordleActionView::StartGame { user } => user,
            WordleActionView::CheckWord { user, .. } => user,
        }
    }
}

impl View for WordleAction {
    type V = WordleActionView;

    open spec fn view(&self) -> WordleActionView {
        match self {
            WordleAction::StartGame { user } => WordleActionView::StartGame { user: *user },
            WordleAction::CheckWord { user, word } => WordleActionView::CheckWord {
                user: *user,
                word: word@,
            },
        }
    }
}

impl Clone for WordleAction {
    fn clone(&self) -> (copy: WordleAction)
        ensures
            copy@ == self@,
    {
        match self {
            WordleAction::StartGame { user } => WordleAction::StartGame { user: *user },
            WordleAction::CheckWord { user, word } => WordleAction::CheckWord {
                user: *user,
                word: word.clone(),
            },
        }
    }
}

/// What the orchestrator is asked to do.
#[derive(Debug, PartialEq, Eq)]
pub enum GameSessionAction {
    /// A user asks for a new game.
    StartGame,
    /// A user submits a guess.
    CheckWord { word: String },
    /// The orchestrator reminds itself that the game which `session_id`
    /// started for `user` has run out of time.
    CheckGameStatus { user: ActorId, session_id: MessageId },
}

/// The view of an action.
pub enum GameSessionActionView {
    StartGame,
    CheckWord { word: Seq<char> },
    CheckGameStatus { user: ActorId, session_id: MessageId },
}

impl View for GameSessionAction {
    type V = GameSessionActionView;

    open spec fn view(&self) -> GameSessionActionView {
        match self {
            GameSessionAction::StartGame => GameSessionActionView::StartGame,
            GameSessionAction::CheckWord { word } => GameSessionActionView::CheckWord {
                word: word@,
            },
            GameSessionAction::CheckGameStatus {
                user,
                session_id,
            } => GameSessionActionView::CheckGameStatus { user: *user, session_id: *session_id },
        }
    }
}

impl Clone for GameSessionAction {
    fn clone(&self) -> (copy: GameSessionAction)
        ensures
            copy@ == self@,
    {
        match self {
            GameSessionAction::StartGame => GameSessionAction::StartGame,
            GameSessionAction::CheckWord { word } => GameSessionAction::CheckWord {
                word: word.clone(),
            },
            GameSessionAction::CheckGameStatus {
                user,
                session_id,
            } => GameSessionAction::CheckGameStatus { user: *user, session_id: *session_id },
        }
    }
}

/// The configuration that the orchestrator is created with.
#[derive(Clone, Copy, Debug, PartialEq, Eq)]
pub struct GameSessionInit {
    /// Address of the guessing service.
    pub wordle_program_id: ActorId,
}

impl GameSessionInit {
    /// A configuration is valid when it names a service: the zero address names none.
    pub open spec fn spec_is_valid(&self) -> bool {
        self.wordle_program_id != ActorId::zero()
    }

    #[verifier::when_used_as_spec(spec_is_valid)]
    pub fn is_valid(&self) -> (valid: bool)
        ensures
            valid == self.is_valid(),
    {
        !self.wordle_program_id.is_zero()
    }
}

} // verus!
