//! The orchestrator: the sessions of all users, and the configuration they share.
//!
//! Every message is handled for exactly one user. The orchestrator looks that
//! user's record up, lets the session decide, and stores the record again only
//! if the session changed it: a rejected call leaves the store as it was.
use crate::directive::{outcome_view, Directive, DirectiveView, Timer};
use crate::error::SessionError;
use crate::ids::{ActorId, MessageId};
use crate::messages::{
    GameSessionAction, GameSessionActionView, GameSessionEvent, GameSessionEventView,
    GameSessionInit, GameStatus, WordleAction, WordleActionView, WordleEvent, WordleEventView,
};
use crate::session::{SessionInfo, SessionInfoView};
use crate::store::{records_view, SessionStore};
use crate::word::{is_valid_word, valid_word};
use vstd::prelude::*;

verus! {

/// What the host knows of the message that is being handled.
#[derive(Clone, Copy, Debug, PartialEq, Eq)]
pub struct MessageContext {
    /// Identifier of the message. A parked invocation is woken by it, and
    /// handles the same message again under the same identifier.
    pub id: MessageId,
    /// Who sent the message.
    pub source: ActorId,
    /// The orchestrator's own address.
    pub program_id: ActorId,
}

/// The orchestrator.
pub struct GameSession {
    wordle_program_id: ActorId,
    sessions: SessionStore,
}

/// The view of the orchestrator: what its contracts speak of.
pub struct GameSessionView {
    /// Address of the guessing service.
    pub wordle_program_id: ActorId,
    /// The users that have a record, in the order in which they got one.
    pub users: Seq<ActorId>,
    /// The record of each user that has one.
    pub sessions: Map<ActorId, SessionInfoView>,
}

impl GameSessionView {
    /// The users that are listed are those that have a record, each listed
    /// once, and the bound on the guesses holds of every record.
    pub open spec fn wf(self) -> bool {
        &&& self.users.no_duplicates()
        &&& forall|user: ActorId| self.sessions.contains_key(user) <==> self.users.contains(user)
        &&& forall|user: ActorId|
            self.sessions.contains_key(user) ==> (#[trigger] self.sessions[user]).wf()
    }

    /// The orchestrator as it is created: no user has a record.
    pub open spec fn empty(wordle_program_id: ActorId) -> GameSessionView {
        GameSessionView { wordle_program_id, users: Seq::empty(), sessions: Map::empty() }
    }

    /// All records, in the order in which the users got one.
    pub open spec fn snapshot(self) -> Seq<(ActorId, SessionInfoView)> {
        self.users.map_values(|user: ActorId| (user, self.sessions[user]))
    }

    /// The record of the user; that of a user without one is the initial record.
    pub open spec fn session(self, user: ActorId) -> SessionInfoView {
        if self.sessions.contains_key(user) {
            self.sessions[user]
        } else {
            SessionInfoView::initial()
        }
    }

    /// The orchestrator with the record of the user replaced. A user that
    /// had no record is listed after the others.
    pub open spec fn with_session(self, user: ActorId, info: SessionInfoView) -> GameSessionView {
        GameSessionView {
            users: if self.sessions.contains_key(user) {
                self.users
            } else {
                self.users.push(user)
            },
            sessions: self.sessions.insert(user, info),
            ..self
        }
    }

    /// The orchestrator after the session of the user has taken a step from
    /// its record to `next`: a record that the step changed is stored.
    pub open spec fn after_step(self, user: ActorId, next: SessionInfoView) -> GameSessionView {
        if next == self.session(user) {
            self
        } else {
            self.with_session(user, next)
        }
    }

    /// A message with an action is handled.
    ///
    /// A start-game request and a guess are decided by the session of the
    /// sender. A timeout check counts only if the orchestrator sent it to
    /// itself, the user has a record, and the game that it names is still the
    /// current one and not over: then the game is lost and the user is told so.
    pub open spec fn handle(self, ctx: MessageContext, action: GameSessionActionView) -> (
        Result<DirectiveView, SessionError>,
        GameSessionView,
    ) {
        match action {
            GameSessionActionView::StartGame => {
                let step = self.session(ctx.source).start_game(ctx.source);
                (step.0, self.after_step(ctx.source, step.1))
            },
            GameSessionActionView::CheckWord { word } => {
                let step = self.session(ctx.source).check_word(
                    ctx.source,
                    word,
                    valid_word(word),
                );
                (step.0, self.after_step(ctx.source, step.1))
            },
            GameSessionActionView::CheckGameStatus { user, session_id } => {
                if ctx.source == ctx.program_id && self.sessions.contains_key(user)
                    && self.sessions[user].times_out(session_id) {
                    (
                        Ok(
                            DirectiveView::Notify {
                                user,
                                event: GameSessionEventView::GameOver(GameStatus::Lose),
                            },
                        ),
                        self.with_session(user, self.sessions[user].check_game_status(session_id)),
                    )
                } else {
                    (Ok(DirectiveView::Ignore), self)
                }
            },
        }
    }

    /// The host reports that invocation `msg_id` sent the start request of
    /// `user` under `request_id`.
    pub open spec fn start_requested(
        self,
        user: ActorId,
        msg_id: MessageId,
        request_id: MessageId,
    ) -> (Result<Timer, SessionError>, GameSessionView) {
        let step = self.session(user).start_requested(user, msg_id, request_id);
        (
            step.0,
            if step.0 is Ok {
                self.with_session(user, step.1)
            } else {
                self
            },
        )
    }

    /// The host reports that invocation `msg_id` sent a guess of `user` under
    /// `request_id`.
    pub open spec fn check_requested(
        self,
        user: ActorId,
        msg_id: MessageId,
        request_id: MessageId,
    ) -> (Result<(), SessionError>, GameSessionView) {
        let step = self.session(user).check_requested(msg_id, request_id);
        (
            step.0,
            if step.0 is Ok {
                self.with_session(user, step.1)
            } else {
                self
            },
        )
    }

    /// The host reports that invocation `msg_id` sent `request` under
    /// `request_id`. A start request comes with a timer to arm, a guess with none.
    pub open spec fn request_sent(
        self,
        request: WordleActionView,
        msg_id: MessageId,
        request_id: MessageId,
    ) -> (Result<Option<Timer>, SessionError>, GameSessionView) {
        match request {
            WordleActionView::StartGame { user } => {
                let step = self.start_requested(user, msg_id, request_id);
                (
                    match step.0 {
                        Ok(timer) => Ok(Some(timer)),
                        Err(error) => Err(error),
                    },
                    step.1,
                )
            },
            WordleActionView::CheckWord { user, .. } => {
                let step = self.check_requested(user, msg_id, request_id);
                (
                    match step.0 {
                        Ok(_) => Ok(None),
                        Err(error) => Err(error),
                    },
                    step.1,
                )
            },
        }
    }

    /// A reply to request `reply_to` arrives with `event`. It is matched
    /// against the session of the user that the event names.
    pub open spec fn handle_reply(self, reply_to: MessageId, event: WordleEventView) -> (
        Option<MessageId>,
        GameSessionView,
    ) {
        let step = self.session(event.user()).reply_received(reply_to, event);
        (
            step.0,
            if step.0 is Some {
                self.with_session(event.user(), step.1)
            } else {
                self
            },
        )
    }
}

impl View for GameSession {
    type V = GameSessionView;

    closed spec fn view(&self) -> GameSessionView {
        GameSessionView {
            wordle_program_id: self.wordle_program_id,
            users: self.sessions.users(),
            sessions: self.sessions@,
        }
    }
}

/// A snapshot of the orchestrator, for inspection from outside.
#[derive(Debug, PartialEq, Eq)]
pub struct GameSessionState {
    pub wordle_program_id: ActorId,
    /// Each user that has a record, once, with a copy of the record.
    pub game_sessions: Vec<(ActorId, SessionInfo)>,
}

/// The view of a snapshot.
pub struct GameSessionStateView {
    pub wordle_program_id: ActorId,
    pub game_sessions: Seq<(ActorId, SessionInfoView)>,
}

impl View for GameSessionState {
    type V = GameSessionStateView;

    open spec fn view(&self) -> GameSessionStateView {
        GameSessionStateView {
            wordle_program_id: self.wordle_program_id,
            game_sessions: records_view(self.game_sessions@),
        }
    }
}

impl GameSession {
    /// No user has two records, and the bound on the guesses holds of every record.
    pub open spec fn wf(&self) -> bool {
        self@.wf()
    }

    /// Creates the orchestrator for the guessing service that the
    /// configuration names. A configuration that names none is rejected.
    pub fn new(init: GameSessionInit) -> (created: Result<GameSession, SessionError>)
        ensures
            match created {
                Ok(game_session) => {
                    &&& init.is_valid()
                    &&& game_session.wf()
                    &&& game_session@ == GameSessionView::empty(init.wordle_program_id)
                },
                Err(error) => !init.is_valid() && error == SessionError::InvalidServiceAddress,
            },
    {
        if init.is_valid() {
            Ok(GameSession { wordle_program_id: init.wordle_program_id, sessions: SessionStore::new() })
        } else {
            Err(SessionError::InvalidServiceAddress)
        }
    }

    /// Address of the guessing service.
    pub fn wordle_program_id(&self) -> (address: ActorId)
        ensures
            address == self@.wordle_program_id,
    {
        self.wordle_program_id
    }

    /// A copy of the record of the user, if the user has one.
    pub fn session(&self, user: &ActorId) -> (found: Option<SessionInfo>)
        requires
            self.wf(),
        ensures
            match found {
                Some(info) => self@.sessions.contains_key(*user) && info@ == self@.sessions[*user],
                None => !self@.sessions.contains_key(*user),
            },
    {
        match self.sessions.get(user) {
            Some(info) => Some(info.clone()),
            None => None,
        }
    }

    /// A copy of the record of the user, or the initial record for a user without one.
    fn session_or_initial(&self, user: &ActorId) -> (info: SessionInfo)
        requires
            self.wf(),
        ensures
            info@ == self@.session(*user),
            info.wf(),
    {
        match self.sessions.get(user) {
            Some(info) => info.clone(),
            None => SessionInfo::default(),
        }
    }

    /// Stores the record of the user.
    fn store(&mut self, user: ActorId, info: SessionInfo)
        requires
            old(self).wf(),
            info.wf(),
        ensures
            final(self).wf(),
            final(self)@ == old(self)@.with_session(user, info@),
    {
        self.sessions.insert(user, info);
        proof {
            old(self).sessions.lemma_users_have_records();
            self.sessions.lemma_users_have_records();
            assert forall|other: ActorId| self@.sessions.contains_key(other) implies (
            #[trigger] self@.sessions[other]).wf() by {
                if other != user {
                    assert(old(self)@.sessions.contains_key(other));
                    assert(old(self)@.sessions[other].wf());
                }
            }
        }
    }

    /// Handles a message with an action, and hands back what is to be sent.
    pub fn handle(&mut self, ctx: &MessageContext, action: GameSessionAction) -> (outcome: Result<
        Directive,
        SessionError,
    >)
        requires
            old(self).wf(),
        ensures
            final(self).wf(),
            outcome_view(outcome) == old(self)@.handle(*ctx, action@).0,
            final(self)@ == old(self)@.handle(*ctx, action@).1,
    {
        match action {
            GameSessionAction::StartGame => {
                let user = ctx.source;
                let mut info = self.session_or_initial(&user);
                let outcome = info.start_game(user);
                if let Ok(Directive::Reply(_)) = &outcome {
                    self.store(user, info);
                }
                outcome
            },
            GameSessionAction::CheckWord { word } => {
                let user = ctx.source;
                let valid = is_valid_word(word.as_str());
                let mut info = self.session_or_initial(&user);
                let outcome = info.check_word(user, word, valid);
                if let Ok(Directive::Reply(_)) = &outcome {
                    self.store(user, info);
                }
                outcome
            },
            GameSessionAction::CheckGameStatus { user, session_id } => {
                if ctx.source != ctx.program_id {
                    return Ok(Directive::Ignore);
                }
                match self.session(&user) {
                    Some(mut info) => {
                        if info.check_game_status(session_id) {
                            self.store(user, info);
                            Ok(
                                Directive::Notify {
                                    user,
                                    event: GameSessionEvent::GameOver(GameStatus::Lose),
                                },
                            )
                        } else {
                            Ok(Directive::Ignore)
                        }
                    },
                    None => Ok(Directive::Ignore),
                }
            },
        }
    }

    /// Records that invocation `msg_id` sent the start request of `user` under
    /// `request_id`, and hands back the timer to arm before the invocation is
    /// parked.
    pub fn start_requested(&mut self, user: ActorId, msg_id: MessageId, request_id: MessageId) -> (outcome:
        Result<Timer, SessionError>)
        requires
            old(self).wf(),
        ensures
            final(self).wf(),
            outcome == old(self)@.start_requested(user, msg_id, request_id).0,
            final(self)@ == old(self)@.start_requested(user, msg_id, request_id).1,
    {
        let mut info = self.session_or_initial(&user);
        let outcome = info.start_requested(user, msg_id, request_id);
        if outcome.is_ok() {
            self.store(user, info);
        }
        outcome
    }

    /// Records that invocation `msg_id` sent a guess of `user` under
    /// `request_id`. The invocation is to be parked.
    pub fn check_requested(&mut self, user: ActorId, msg_id: MessageId, request_id: MessageId) -> (outcome:
        Result<(), SessionError>)
        requires
            old(self).wf(),
        ensures
            final(self).wf(),
            outcome == old(self)@.check_requested(user, msg_id, request_id).0,
            final(self)@ == old(self)@.check_requested(user, msg_id, request_id).1,
    {
        let mut info = self.session_or_initial(&user);
        let outcome = info.check_requested(msg_id, request_id);
        if outcome.is_ok() {
            self.store(user, info);
        }
        outcome
    }

    /// Records that invocation `msg_id` sent `request` under `request_id`, and
    /// hands back the timer to arm, if any, before the invocation is parked.
    pub fn request_sent(&mut self, request: &WordleAction, msg_id: MessageId, request_id: MessageId) -> (outcome:
        Result<Option<Timer>, SessionError>)
        requires
            old(self).wf(),
        ensures
            final(self).wf(),
            outcome == old(self)@.request_sent(request@, msg_id, request_id).0,
            final(self)@ == old(self)@.request_sent(request@, msg_id, request_id).1,
    {
        match request {
            WordleAction::StartGame { user } => {
                match self.start_requested(*user, msg_id, request_id) {
                    Ok(timer) => Ok(Some(timer)),
                    Err(error) => Err(error),
                }
            },
            WordleAction::CheckWord { user, .. } => {
                match self.check_requested(*user, msg_id, request_id) {
                    Ok(_) => Ok(None),
                    Err(error) => Err(error),
                }
            },
        }
    }

    /// Handles a reply of the guessing service to request `reply_to`, and
    /// hands back the invocation to wake if the reply was the awaited one.
    pub fn handle_reply(&mut self, reply_to: MessageId, event: WordleEvent) -> (wake: Option<
        MessageId,
    >)
        requires
            old(self).wf(),
        ensures
            final(self).wf(),
            wake == old(self)@.handle_reply(reply_to, event@).0,
            final(self)@ == old(self)@.handle_reply(reply_to, event@).1,
    {
        let user = *event.get_user();
        let mut info = self.session_or_initial(&user);
        let wake = info.reply_received(reply_to, event);
        if wake.is_some() {
            self.store(user, info);
        }
        wake
    }

    /// A snapshot of the configuration and of all records.
    pub fn state(&self) -> (snapshot: GameSessionState)
        requires
            self.wf(),
        ensures
            snapshot@.wordle_program_id == self@.wordle_program_id,
            snapshot@.game_sessions == self@.snapshot(),
    {
        GameSessionState {
            wordle_program_id: self.wordle_program_id,
            game_sessions: self.sessions.to_vec(),
        }
    }
}

} // verus!
