//! One user's session: the record, and what each message does to it.
//!
//! A session is a small state machine. Every transition is a function from the
//! record and the message to the next record and what is to be sent; the record
//! is only replaced where the transition says so.
use crate::directive::{outcome_view, Directive, DirectiveView, Timer, TIMEOUT_DELAY};
use crate::error::SessionError;
use crate::ids::{ActorId, MessageId};
use crate::messages::{
    GameSessionEvent, GameSessionEventView, GameStatus, WordleAction, WordleActionView,
    WordleEvent, WordleEventView,
};
use vstd::prelude::*;

verus! {

/// Number of guesses that a game allows.
pub const TRIES_LIMIT: u8 = 5;

/// Where a session stands.
#[derive(Debug, PartialEq, Eq)]
pub enum SessionStatus {
    /// No game was started yet.
    Init,
    /// A round is on; the user's next guess is awaited.
    WaitUserInput,
    /// A start request was sent to the guessing service; no reply yet.
    WaitWordleStartReply,
    /// A guess was sent to the guessing service; no reply yet.
    WaitWordleCheckWordReply,
    /// The reply arrived while the invocation that asked for it was parked.
    ReplyReceived(WordleEvent),
    /// The game is over.
    GameOver(GameStatus),
}

/// The view of a status.
pub enum SessionStatusView {
    Init,
    WaitUserInput,
    WaitWordleStartReply,
    WaitWordleCheckWordReply,
    ReplyReceived(WordleEventView),
    GameOver(GameStatus),
}

impl View for SessionStatus {
    type V = SessionStatusView;

    open spec fn view(&self) -> SessionStatusView {
        match self {
            SessionStatus::Init => SessionStatusView::Init,
            SessionStatus::WaitUserInput => SessionStatusView::WaitUserInput,
            SessionStatus::WaitWordleStartReply => SessionStatusView::WaitWordleStartReply,
            SessionStatus::WaitWordleCheckWordReply => SessionStatusView::WaitWordleCheckWordReply,
            SessionStatus::ReplyReceived(event) => SessionStatusView::ReplyReceived(event@),
            SessionStatus::GameOver(status) => SessionStatusView::GameOver(*status),
        }
    }
}

impl Clone for SessionStatus {
    fn clone(&self) -> (copy: SessionStatus)
        ensures
            copy@ == self@,
    {
        match self {
            SessionStatus::Init => SessionStatus::Init,
            SessionStatus::WaitUserInput => SessionStatus::WaitUserInput,
            SessionStatus::WaitWordleStartReply => SessionStatus::WaitWordleStartReply,
            SessionStatus::WaitWordleCheckWordReply => SessionStatus::WaitWordleCheckWordReply,
            SessionStatus::ReplyReceived(event) => SessionStatus::ReplyReceived(event.clone()),
            SessionStatus::GameOver(status) => SessionStatus::GameOver(*status),
        }
    }
}

impl SessionStatusView {
    /// A request is in flight and its reply has not arrived.
    pub open spec fn is_wait_reply(self) -> bool {
        self is WaitWordleStartReply || self is WaitWordleCheckWordReply
    }

    /// A start request may be issued: no game is on.
    pub open spec fn may_start(self) -> bool {
        self is Init || self is GameOver || self is WaitWordleStartReply
    }

    /// A guess may be issued: a round is on.
    pub open spec fn may_guess(self) -> bool {
        self is WaitUserInput || self is WaitWordleCheckWordReply
    }
}

/// The record that is kept for one user.
#[derive(Debug, PartialEq, Eq)]
pub struct SessionInfo {
    /// The invocation that started the current game. A timeout names the game
    /// that it belongs to by this identifier.
    pub session_id: MessageId,
    /// The invocation that is parked until the reply arrives.
    pub original_msg_id: MessageId,
    /// The request that was sent to the guessing service last. Only a reply to
    /// it is accepted.
    pub send_to_wordle_msg_id: MessageId,
    /// Number of guesses used up in the current game.
    pub tries: u8,
    pub session_status: SessionStatus,
}

/// The view of a record.
pub struct SessionInfoView {
    pub session_id: MessageId,
    pub original_msg_id: MessageId,
    pub send_to_wordle_msg_id: MessageId,
    pub tries: u8,
    pub session_status: SessionStatusView,
}

impl View for SessionInfo {
    type V = SessionInfoView;

    open spec fn view(&self) -> SessionInfoView {
        SessionInfoView {
            session_id: self.session_id,
            original_msg_id: self.original_msg_id,
            send_to_wordle_msg_id: self.send_to_wordle_msg_id,
            tries: self.tries,
            session_status: self.session_status@,
        }
    }
}

impl SessionInfoView {
    /// The record of a user who has not been heard of.
    pub open spec fn initial() -> SessionInfoView {
        SessionInfoView {
            session_id: MessageId::zero(),
            original_msg_id: MessageId::zero(),
            send_to_wordle_msg_id: MessageId::zero(),
            tries: 0,
            session_status: SessionStatusView::Init,
        }
    }

    /// The bound on the guesses: never more than the limit, and fewer while
    /// the game is not over.
    pub open spec fn wf(self) -> bool {
        &&& self.tries <= TRIES_LIMIT
        &&& !(self.session_status is GameOver) ==> self.tries < TRIES_LIMIT
    }

    /// A start-game request of `user`.
    ///
    /// With a reply at hand the start is confirmed to the user and the round
    /// is on. With no game on, a start request is to be sent; the record stays
    /// as it is until the host reports the request. With a round on, the
    /// request is rejected.
    pub open spec fn start_game(self, user: ActorId) -> (
        Result<DirectiveView, SessionError>,
        SessionInfoView,
    ) {
        match self.session_status {
            SessionStatusView::ReplyReceived(event) => (
                Ok(DirectiveView::Reply(event.to_session_event())),
                SessionInfoView { session_status: SessionStatusView::WaitUserInput, ..self },
            ),
            SessionStatusView::Init
            | SessionStatusView::GameOver(_)
            | SessionStatusView::WaitWordleStartReply => (
                Ok(DirectiveView::Request(WordleActionView::StartGame { user })),
                self,
            ),
            SessionStatusView::WaitUserInput | SessionStatusView::WaitWordleCheckWordReply => (
                Err(SessionError::UserInGame),
                self,
            ),
        }
    }

    /// The host reports that invocation `msg_id` sent the start request of
    /// `user` under `request_id`.
    ///
    /// A new game begins: it is named after the invocation, which is also the
    /// one to wake; no guess is used; the reply to `request_id` is awaited.
    /// The timer that is handed back bounds the game.
    pub open spec fn start_requested(
        self,
        user: ActorId,
        msg_id: MessageId,
        request_id: MessageId,
    ) -> (Result<Timer, SessionError>, SessionInfoView) {
        if self.session_status.may_start() {
            (
                Ok(Timer { user, session_id: msg_id, delay: TIMEOUT_DELAY }),
                SessionInfoView {
                    session_id: msg_id,
                    original_msg_id: msg_id,
                    send_to_wordle_msg_id: request_id,
                    tries: 0,
                    session_status: SessionStatusView::WaitWordleStartReply,
                },
            )
        } else {
            (Err(SessionError::RequestNotExpected), self)
        }
    }

    /// A guess of `user`; `valid` tells whether `word` is well formed.
    ///
    /// With a reply at hand one guess is used up: a full match wins, the last
    /// guess without one loses, and any other feedback is passed on. With a
    /// round on, a well-formed word is to be sent and any other is rejected.
    /// With no round on, the guess is rejected.
    pub open spec fn check_word(self, user: ActorId, word: Seq<char>, valid: bool) -> (
        Result<DirectiveView, SessionError>,
        SessionInfoView,
    ) {
        match self.session_status {
            SessionStatusView::ReplyReceived(event) => {
                let tries = (self.tries + 1) as u8;
                if event.has_guessed() {
                    (
                        Ok(DirectiveView::Reply(GameSessionEventView::GameOver(GameStatus::Win))),
                        SessionInfoView {
                            tries,
                            session_status: SessionStatusView::GameOver(GameStatus::Win),
                            ..self
                        },
                    )
                } else if tries == TRIES_LIMIT {
                    (
                        Ok(DirectiveView::Reply(GameSessionEventView::GameOver(GameStatus::Lose))),
                        SessionInfoView {
                            tries,
                            session_status: SessionStatusView::GameOver(GameStatus::Lose),
                            ..self
                        },
                    )
                } else {
                    (
                        Ok(DirectiveView::Reply(event.to_session_event())),
                        SessionInfoView {
                            tries,
                            session_status: SessionStatusView::WaitUserInput,
                            ..self
                        },
                    )
                }
            },
            SessionStatusView::WaitUserInput | SessionStatusView::WaitWordleCheckWordReply => {
                if valid {
                    (Ok(DirectiveView::Request(WordleActionView::CheckWord { user, word })), self)
                } else {
                    (Err(SessionError::InvalidWord), self)
                }
            },
            SessionStatusView::Init
            | SessionStatusView::WaitWordleStartReply
            | SessionStatusView::GameOver(_) => (Err(SessionError::UserNotInGame), self),
        }
    }

    /// The host reports that invocation `msg_id` sent a guess under `request_id`.
    ///
    /// The invocation is the one to wake, and the reply to `request_id` is awaited.
    pub open spec fn check_requested(self, msg_id: MessageId, request_id: MessageId) -> (
        Result<(), SessionError>,
        SessionInfoView,
    ) {
        if self.session_status.may_guess() {
            (
                Ok(()),
                SessionInfoView {
                    original_msg_id: msg_id,
                    send_to_wordle_msg_id: request_id,
                    session_status: SessionStatusView::WaitWordleCheckWordReply,
                    ..self
                },
            )
        } else {
            (Err(SessionError::RequestNotExpected), self)
        }
    }

    /// Whether the timeout of the game that `session_id` started ends this
    /// session: it does when that game is still the current one and is not over.
    pub open spec fn times_out(self, session_id: MessageId) -> bool {
        session_id == self.session_id && !(self.session_status is GameOver)
    }

    /// The timeout of the game that `session_id` started: where it applies the
    /// game is lost, and otherwise nothing changes.
    pub open spec fn check_game_status(self, session_id: MessageId) -> SessionInfoView {
        if self.times_out(session_id) {
            SessionInfoView {
                session_status: SessionStatusView::GameOver(GameStatus::Lose),
                ..self
            }
        } else {
            self
        }
    }

    /// Whether a reply to request `reply_to` is the one that this session waits for.
    pub open spec fn accepts_reply(self, reply_to: MessageId) -> bool {
        reply_to == self.send_to_wordle_msg_id && self.session_status.is_wait_reply()
    }

    /// A reply to request `reply_to` that carries `event`: the awaited one is
    /// kept for the parked invocation, and any other is dropped.
    pub open spec fn reply_received(self, reply_to: MessageId, event: WordleEventView) -> (
        Option<MessageId>,
        SessionInfoView,
    ) {
        if self.accepts_reply(reply_to) {
            (
                Some(self.original_msg_id),
                SessionInfoView { session_status: SessionStatusView::ReplyReceived(event), ..self },
            )
        } else {
            (None, self)
        }
    }
}

impl Default for SessionInfo {
    fn default() -> (info: SessionInfo)
        ensures
            info@ == SessionInfoView::initial(),
    {
        SessionInfo {
            session_id: MessageId::zero(),
            original_msg_id: MessageId::zero(),
            send_to_wordle_msg_id: MessageId::zero(),
            tries: 0,
            session_status: SessionStatus::Init,
        }
    }
}

impl Clone for SessionInfo {
    fn clone(&self) -> (copy: SessionInfo)
        ensures
            copy@ == self@,
    {
        SessionInfo {
            session_id: self.session_id,
            original_msg_id: self.original_msg_id,
            send_to_wordle_msg_id: self.send_to_wordle_msg_id,
            tries: self.tries,
            session_status: self.session_status.clone(),
        }
    }
}

impl SessionInfo {
    /// The bound on the guesses holds of this record.
    pub open spec fn wf(&self) -> bool {
        self@.wf()
    }

    /// Whether a request is in flight and its reply has not arrived.
    pub fn is_wait_reply_status(&self) -> (waiting: bool)
        ensures
            waiting == self@.session_status.is_wait_reply(),
    {
        match self.session_status {
            SessionStatus::WaitWordleStartReply | SessionStatus::WaitWordleCheckWordReply => true,
            _ => false,
        }
    }

    /// Whether the game is over.
    pub fn is_game_over(&self) -> (over: bool)
        ensures
            over == (self@.session_status is GameOver),
    {
        match self.session_status {
            SessionStatus::GameOver(_) => true,
            _ => false,
        }
    }

    /// Handles a start-game request of `user`.
    pub fn start_game(&mut self, user: ActorId) -> (outcome: Result<Directive, SessionError>)
        ensures
            outcome_view(outcome) == old(self)@.start_game(user).0,
            final(self)@ == old(self)@.start_game(user).1,
    {
        match &self.session_status {
            SessionStatus::ReplyReceived(event) => {
                let reply = event.to_session_event();
                self.session_status = SessionStatus::WaitUserInput;
                Ok(Directive::Reply(reply))
            },
            SessionStatus::Init
            | SessionStatus::GameOver(_)
            | SessionStatus::WaitWordleStartReply => Ok(
                Directive::Request(WordleAction::StartGame { user }),
            ),
            SessionStatus::WaitUserInput | SessionStatus::WaitWordleCheckWordReply => Err(
                SessionError::UserInGame,
            ),
        }
    }

    /// Records that invocation `msg_id` sent the start request of `user` under
    /// `request_id`, and hands back the timer to arm before the invocation is
    /// parked.
    pub fn start_requested(&mut self, user: ActorId, msg_id: MessageId, request_id: MessageId) -> (outcome:
        Result<Timer, SessionError>)
        ensures
            outcome == old(self)@.start_requested(user, msg_id, request_id).0,
            final(self)@ == old(self)@.start_requested(user, msg_id, request_id).1,
    {
        match self.session_status {
            SessionStatus::Init
            | SessionStatus::GameOver(_)
            | SessionStatus::WaitWordleStartReply => {
                self.session_id = msg_id;
                self.original_msg_id = msg_id;
                self.send_to_wordle_msg_id = request_id;
                self.tries = 0;
                self.session_status = SessionStatus::WaitWordleStartReply;
                Ok(Timer { user, session_id: msg_id, delay: TIMEOUT_DELAY })
            },
            _ => Err(SessionError::RequestNotExpected),
        }
    }

    /// Handles a guess of `user`; `valid` tells whether `word` is well formed.
    pub fn check_word(&mut self, user: ActorId, word: String, valid: bool) -> (outcome: Result<
        Directive,
        SessionError,
    >)
        requires
            old(self).wf(),
        ensures
            outcome_view(outcome) == old(self)@.check_word(user, word@, valid).0,
            final(self)@ == old(self)@.check_word(user, word@, valid).1,
    {
        match &self.session_status {
            SessionStatus::ReplyReceived(event) => {
                let tries: u8 = self.tries + 1;
                if event.has_guessed() {
                    self.tries = tries;
                    self.session_status = SessionStatus::GameOver(GameStatus::Win);
                    Ok(Directive::Reply(GameSessionEvent::GameOver(GameStatus::Win)))
                } else if tries == TRIES_LIMIT {
                    self.tries = tries;
                    self.session_status = SessionStatus::GameOver(GameStatus::Lose);
                    Ok(Directive::Reply(GameSessionEvent::GameOver(GameStatus::Lose)))
                } else {
                    let reply = event.to_session_event();
                    self.tries = tries;
                    self.session_status = SessionStatus::WaitUserInput;
                    Ok(Directive::Reply(reply))
                }
            },
            SessionStatus::WaitUserInput | SessionStatus::WaitWordleCheckWordReply => {
                if valid {
                    Ok(Directive::Request(WordleAction::CheckWord { user, word }))
                } else {
                    Err(SessionError::InvalidWord)
                }
            },
            SessionStatus::Init
            | SessionStatus::WaitWordleStartReply
            | SessionStatus::GameOver(_) => Err(SessionError::UserNotInGame),
        }
    }

    /// Records that invocation `msg_id` sent a guess under `request_id`.
    pub fn check_requested(&mut self, msg_id: MessageId, request_id: MessageId) -> (outcome: Result<
        (),
        SessionError,
    >)
        ensures
            outcome == old(self)@.check_requested(msg_id, request_id).0,
            final(self)@ == old(self)@.check_requested(msg_id, request_id).1,
    {
        match self.session_status {
            SessionStatus::WaitUserInput | SessionStatus::WaitWordleCheckWordReply => {
                self.original_msg_id = msg_id;
                self.send_to_wordle_msg_id = request_id;
                self.session_status = SessionStatus::WaitWordleCheckWordReply;
                Ok(())
            },
            _ => Err(SessionError::RequestNotExpected),
        }
    }

    /// Handles the timeout of the game that `session_id` started, and tells
    /// whether the game was lost by it.
    pub fn check_game_status(&mut self, session_id: MessageId) -> (timed_out: bool)
        ensures
            timed_out == old(self)@.times_out(session_id),
            final(self)@ == old(self)@.check_game_status(session_id),
    {
        if session_id == self.session_id && !self.is_game_over() {
            self.session_status = SessionStatus::GameOver(GameStatus::Lose);
            true
        } else {
            false
        }
    }

    /// Handles a reply to request `reply_to`, and hands back the invocation to
    /// wake if the reply was the awaited one.
    pub fn reply_received(&mut self, reply_to: MessageId, event: WordleEvent) -> (wake: Option<
        MessageId,
    >)
        ensures
            wake == old(self)@.reply_received(reply_to, event@).0,
            final(self)@ == old(self)@.reply_received(reply_to, event@).1,
    {
        if reply_to == self.send_to_wordle_msg_id && self.is_wait_reply_status() {
            self.session_status = SessionStatus::ReplyReceived(event);
            Some(self.original_msg_id)
        } else {
            None
        }
    }
}

} // verus!
