//! What holds of the orchestrator whatever the users, the guessing service
//! and the host do.
//!
//! Each law is stated over the views: over the same functions by which the
//! contracts of the orchestrator say what a call does.
use crate::directive::{DirectiveView, Timer, TIMEOUT_DELAY};
use crate::error::SessionError;
use crate::ids::{ActorId, MessageId};
use crate::messages::{
    GameSessionActionView, GameSessionEventView, GameStatus, WordleActionView, WordleEventView,
};
use crate::orchestrator::{GameSessionView, MessageContext};
use crate::session::{SessionInfoView, SessionStatusView, TRIES_LIMIT};
use crate::word::{is_lowercase, valid_word, WORD_LENGTH};
use vstd::prelude::*;

verus! {

/// While a round is on for a user, a start-game request of that user is
/// rejected, and the rejected call changes nothing.
pub proof fn law_start_rejected_while_round_is_on(game: GameSessionView, ctx: MessageContext)
    requires
        game.session(ctx.source).session_status.may_guess(),
    ensures
        game.handle(ctx, GameSessionActionView::StartGame) == (
            Err::<DirectiveView, SessionError>(SessionError::UserInGame),
            game,
        ),
{
}

/// Starting a game twice in a row: once a start-game request of a user was
/// answered, the round is on, so the next start-game request of that user is
/// rejected and changes nothing.
pub proof fn law_second_start_rejected(
    game: GameSessionView,
    first: MessageContext,
    second: MessageContext,
)
    requires
        first.source == second.source,
        game.handle(first, GameSessionActionView::StartGame).0 matches Ok(DirectiveView::Reply(_)),
    ensures
        ({
            let started = game.handle(first, GameSessionActionView::StartGame).1;
            started.handle(second, GameSessionActionView::StartGame) == (
                Err::<DirectiveView, SessionError>(SessionError::UserInGame),
                started,
            )
        }),
{
    let started = game.handle(first, GameSessionActionView::StartGame).1;
    assert(started.session(first.source).session_status is WaitUserInput);
}

/// A word that does not have five characters, or that holds a character
/// which is not a lowercase letter, never reaches the guessing service: no
/// request is asked for. Unless a reply is at hand for the user, the guess is
/// rejected and changes nothing.
pub proof fn law_malformed_word_never_sent(
    game: GameSessionView,
    ctx: MessageContext,
    word: Seq<char>,
)
    requires
        word.len() != WORD_LENGTH || exists|i: int|
            0 <= i < word.len() && !is_lowercase(#[trigger] word[i]),
    ensures
        !(game.handle(ctx, GameSessionActionView::CheckWord { word }).0 matches Ok(
            DirectiveView::Request(_),
        )),
        !(game.session(ctx.source).session_status is ReplyReceived) ==> {
            &&& game.handle(ctx, GameSessionActionView::CheckWord { word }).0 is Err
            &&& game.handle(ctx, GameSessionActionView::CheckWord { word }).1 == game
        },
{
    assert(!valid_word(word));
}

/// The orchestrator stays valid: it is valid as it is created, and every call
/// keeps it so. In a valid orchestrator no user has used more guesses than the
/// limit, and only a user whose game is over has used them all.
pub proof fn law_tries_never_exceed_limit(
    game: GameSessionView,
    ctx: MessageContext,
    action: GameSessionActionView,
    request: WordleActionView,
    user: ActorId,
    msg_id: MessageId,
    request_id: MessageId,
    event: WordleEventView,
)
    requires
        game.wf(),
    ensures
        GameSessionView::empty(game.wordle_program_id).wf(),
        game.handle(ctx, action).1.wf(),
        game.start_requested(user, msg_id, request_id).1.wf(),
        game.check_requested(user, msg_id, request_id).1.wf(),
        game.request_sent(request, msg_id, request_id).1.wf(),
        game.handle_reply(request_id, event).1.wf(),
        game.session(user).tries <= TRIES_LIMIT,
        game.session(user).tries == TRIES_LIMIT ==> game.session(user).session_status is GameOver,
{
    lemma_step_keeps_validity(game, acting_user(ctx, action), game.handle(ctx, action).1);
    lemma_step_keeps_validity(game, user, game.start_requested(user, msg_id, request_id).1);
    lemma_step_keeps_validity(game, user, game.check_requested(user, msg_id, request_id).1);
    lemma_step_keeps_validity(
        game,
        request.user(),
        game.request_sent(request, msg_id, request_id).1,
    );
    lemma_step_keeps_validity(game, event.user(), game.handle_reply(request_id, event).1);
}

/// The orchestrator stays valid where the record of one user is replaced by
/// a record that meets the bound on the guesses.
proof fn lemma_step_keeps_validity(game: GameSessionView, user: ActorId, after: GameSessionView)
    requires
        game.wf(),
        after != game ==> after == game.with_session(user, after.session(user)),
        after != game ==> after.session(user).wf(),
    ensures
        after.wf(),
{
    if after != game {
        lemma_with_session_keeps_users(game, user, after.session(user));
        assert forall|other: ActorId| after.sessions.contains_key(other) implies (
        #[trigger] after.sessions[other]).wf() by {
            if other != user {
                assert(game.sessions.contains_key(other));
            }
        }
    }
}

/// Replacing the record of one user keeps the list of users in step with the
/// records.
proof fn lemma_with_session_keeps_users(game: GameSessionView, user: ActorId, info: SessionInfoView)
    requires
        game.wf(),
    ensures
        game.with_session(user, info).users.no_duplicates(),
        forall|other: ActorId|
            game.with_session(user, info).sessions.contains_key(other) <==> game.with_session(
                user,
                info,
            ).users.contains(other),
{
    let after = game.with_session(user, info);
    if game.sessions.contains_key(user) {
        assert forall|other: ActorId|
            after.sessions.contains_key(other) <==> after.users.contains(other) by {
            if other != user {
                assert(game.sessions.contains_key(other) <==> game.users.contains(other));
            }
        }
    } else {
        let users = game.users;
        let pushed = users.push(user);
        assert forall|a: int, b: int|
            0 <= a < pushed.len() && 0 <= b < pushed.len() && a != b implies pushed[a]
            != pushed[b] by {
            if a < users.len() {
                assert(users.contains(users[a]));
            }
            if b < users.len() {
                assert(users.contains(users[b]));
            }
        }
        assert forall|other: ActorId|
            after.sessions.contains_key(other) <==> pushed.contains(other) by {
            if pushed.contains(other) {
                let i = choose|i: int| 0 <= i < pushed.len() && pushed[i] == other;
                if i < users.len() {
                    assert(users.contains(other));
                }
            }
            if users.contains(other) {
                let i = choose|i: int| 0 <= i < users.len() && users[i] == other;
                assert(pushed[i] == other);
            }
            if other == user {
                assert(pushed[users.len() as int] == other);
            }
        }
    }
}

/// The guess that uses up the last try without a full match loses the game:
/// the user is told so, and the session is over with the limit reached.
pub proof fn law_last_miss_loses(
    game: GameSessionView,
    ctx: MessageContext,
    word: Seq<char>,
    event: WordleEventView,
)
    requires
        game.session(ctx.source).session_status == SessionStatusView::ReplyReceived(event),
        game.session(ctx.source).tries + 1 == TRIES_LIMIT,
        !event.has_guessed(),
    ensures
        game.handle(ctx, GameSessionActionView::CheckWord { word }) == (
            Ok::<DirectiveView, SessionError>(
                DirectiveView::Reply(GameSessionEventView::GameOver(GameStatus::Lose)),
            ),
            game.with_session(
                ctx.source,
                SessionInfoView {
                    tries: TRIES_LIMIT,
                    session_status: SessionStatusView::GameOver(GameStatus::Lose),
                    ..game.session(ctx.source)
                },
            ),
        ),
{
}

/// A timeout check that names another game than the current one of the user
/// does nothing: no record changes and nothing is sent.
pub proof fn law_stale_timeout_is_ignored(
    game: GameSessionView,
    ctx: MessageContext,
    user: ActorId,
    session_id: MessageId,
)
    requires
        game.sessions.contains_key(user) ==> session_id != game.sessions[user].session_id,
    ensures
        game.handle(ctx, GameSessionActionView::CheckGameStatus { user, session_id }) == (
            Ok::<DirectiveView, SessionError>(DirectiveView::Ignore),
            game,
        ),
{
}

/// A timeout check that does not come from the orchestrator itself does nothing.
pub proof fn law_foreign_timeout_is_ignored(
    game: GameSessionView,
    ctx: MessageContext,
    user: ActorId,
    session_id: MessageId,
)
    requires
        ctx.source != ctx.program_id,
    ensures
        game.handle(ctx, GameSessionActionView::CheckGameStatus { user, session_id }) == (
            Ok::<DirectiveView, SessionError>(DirectiveView::Ignore),
            game,
        ),
{
}

/// A timeout check that the orchestrator sent to itself, for the current game
/// of a user, ends that game if it is not over: the game is lost, the user is
/// told so, and the number of guesses stays as it is.
pub proof fn law_live_timeout_loses(
    game: GameSessionView,
    ctx: MessageContext,
    user: ActorId,
    session_id: MessageId,
)
    requires
        ctx.source == ctx.program_id,
        game.sessions.contains_key(user),
        session_id == game.sessions[user].session_id,
        !(game.sessions[user].session_status is GameOver),
    ensures
        game.handle(ctx, GameSessionActionView::CheckGameStatus { user, session_id }) == (
            Ok::<DirectiveView, SessionError>(
                DirectiveView::Notify {
                    user,
                    event: GameSessionEventView::GameOver(GameStatus::Lose),
                },
            ),
            game.with_session(
                user,
                SessionInfoView {
                    session_status: SessionStatusView::GameOver(GameStatus::Lose),
                    ..game.sessions[user]
                },
            ),
        ),
{
}

/// A reply that is not the awaited one is dropped: if the user that it names
/// waits for no reply, or for the reply to another request, nothing changes
/// and nothing is woken.
pub proof fn law_unmatched_reply_is_dropped(
    game: GameSessionView,
    reply_to: MessageId,
    event: WordleEventView,
)
    requires
        !game.session(event.user()).session_status.is_wait_reply() || reply_to != game.session(
            event.user(),
        ).send_to_wordle_msg_id,
    ensures
        game.handle_reply(reply_to, event) == (None::<MessageId>, game),
{
}

/// A reply is taken once: after the awaited reply was taken, the same reply
/// is dropped.
pub proof fn law_reply_is_taken_once(
    game: GameSessionView,
    reply_to: MessageId,
    event: WordleEventView,
    again: WordleEventView,
)
    requires
        game.handle_reply(reply_to, event).0 is Some,
        again.user() == event.user(),
    ensures
        ({
            let taken = game.handle_reply(reply_to, event).1;
            taken.handle_reply(reply_to, again) == (None::<MessageId>, taken)
        }),
{
}

/// A call that is rejected changes nothing.
pub proof fn law_rejected_call_changes_nothing(
    game: GameSessionView,
    ctx: MessageContext,
    action: GameSessionActionView,
    request: WordleActionView,
    msg_id: MessageId,
    request_id: MessageId,
)
    ensures
        game.handle(ctx, action).0 is Err ==> game.handle(ctx, action).1 == game,
        game.request_sent(request, msg_id, request_id).0 is Err ==> game.request_sent(
            request,
            msg_id,
            request_id,
        ).1 == game,
{
}

/// A call changes the record of one user at most: the sender of a request,
/// the user that a timeout check or a reply names, the user whose request the
/// host reports. The records of all others, and the address of the guessing
/// service, stay as they are.
pub proof fn law_other_users_untouched(
    game: GameSessionView,
    ctx: MessageContext,
    action: GameSessionActionView,
    request: WordleActionView,
    msg_id: MessageId,
    request_id: MessageId,
    event: WordleEventView,
    other: ActorId,
)
    ensures
        other != acting_user(ctx, action) ==> game.handle(ctx, action).1.session(other)
            == game.session(other),
        other != request.user() ==> game.request_sent(request, msg_id, request_id).1.session(other)
            == game.session(other),
        other != event.user() ==> game.handle_reply(request_id, event).1.session(other)
            == game.session(other),
        game.handle(ctx, action).1.wordle_program_id == game.wordle_program_id,
        game.request_sent(request, msg_id, request_id).1.wordle_program_id
            == game.wordle_program_id,
        game.handle_reply(request_id, event).1.wordle_program_id == game.wordle_program_id,
{
}

/// The user whose session a message with an action is about.
pub open spec fn acting_user(ctx: MessageContext, action: GameSessionActionView) -> ActorId {
    match action {
        GameSessionActionView::CheckGameStatus { user, .. } => user,
        _ => ctx.source,
    }
}

/// Starting a game, from the request to the confirmation.
///
/// A user with no game on asks for one: a start request is asked for. The
/// host reports the request: the timer is handed out and the session waits.
/// The reply arrives: the parked invocation is to be woken. The invocation
/// handles the message again: the user gets the start confirmation. After
/// that the record of the user shows a round that is on and no guess used,
/// and the snapshot of the records shows that record.
pub proof fn law_start_round_trip(game: GameSessionView, ctx: MessageContext, request_id: MessageId)
    requires
        game.wf(),
        game.session(ctx.source).session_status.may_start(),
    ensures
        ({
            let user = ctx.source;
            let event = WordleEventView::GameStarted { user };
            let asked = game.handle(ctx, GameSessionActionView::StartGame);
            let sent = asked.1.start_requested(user, ctx.id, request_id);
            let replied = sent.1.handle_reply(request_id, event);
            let confirmed = replied.1.handle(ctx, GameSessionActionView::StartGame);
            let snapshot = confirmed.1.snapshot();
            &&& asked == (
                Ok::<DirectiveView, SessionError>(
                    DirectiveView::Request(WordleActionView::StartGame { user }),
                ),
                game,
            )
            &&& sent.0 == Ok::<Timer, SessionError>(
                Timer { user, session_id: ctx.id, delay: TIMEOUT_DELAY },
            )
            &&& replied.0 == Some(ctx.id)
            &&& confirmed.0 == Ok::<DirectiveView, SessionError>(
                DirectiveView::Reply(GameSessionEventView::StartSuccess),
            )
            &&& confirmed.1 == start_round_trip(game, ctx, request_id)
            &&& confirmed.1.session(user).session_status is WaitUserInput
            &&& confirmed.1.session(user).tries == 0
            &&& exists|i: int|
                0 <= i < snapshot.len() && (#[trigger] snapshot[i]).0 == user
                    && snapshot[i].1.session_status is WaitUserInput && snapshot[i].1.tries == 0
        }),
{
    let user = ctx.source;
    let event = WordleEventView::GameStarted { user };
    let sent = game.start_requested(user, ctx.id, request_id).1;
    let replied = sent.handle_reply(request_id, event).1;
    let last = start_round_trip(game, ctx, request_id);
    lemma_with_session_keeps_users(game, user, sent.session(user));
    assert(last.users == sent.users);
    assert(sent.users.contains(user));
    let i = choose|i: int| 0 <= i < sent.users.len() && sent.users[i] == user;
    assert(last.snapshot()[i].0 == user);
}

/// A guess, from the request to the answer.
///
/// A user whose round is on submits a well-formed word: the word is to be
/// sent. The host reports the request: there is no timer, and the session
/// waits. The reply arrives: the parked invocation is to be woken. The
/// invocation handles the message again: one more guess is used, and the user
/// is told of the win on a full match, of the loss if that was the last
/// guess, and else of the feedback.
pub proof fn law_guess_round_trip(
    game: GameSessionView,
    ctx: MessageContext,
    word: Seq<char>,
    request_id: MessageId,
    event: WordleEventView,
)
    requires
        game.wf(),
        game.session(ctx.source).session_status.may_guess(),
        valid_word(word),
        event.user() == ctx.source,
    ensures
        ({
            let user = ctx.source;
            let action = GameSessionActionView::CheckWord { word };
            let request = WordleActionView::CheckWord { user, word };
            let asked = game.handle(ctx, action);
            let sent = asked.1.request_sent(request, ctx.id, request_id);
            let replied = sent.1.handle_reply(request_id, event);
            let answered = replied.1.handle(ctx, action);
            let tries = game.session(user).tries + 1;
            &&& asked == (Ok::<DirectiveView, SessionError>(DirectiveView::Request(request)), game)
            &&& sent.0 == Ok::<Option<Timer>, SessionError>(None)
            &&& replied.0 == Some(ctx.id)
            &&& answered.1.session(user).tries == tries
            &&& answered.1.session(user).session_id == game.session(user).session_id
            &&& if event.has_guessed() {
                &&& answered.0 == Ok::<DirectiveView, SessionError>(
                    DirectiveView::Reply(GameSessionEventView::GameOver(GameStatus::Win)),
                )
                &&& answered.1.session(user).session_status == SessionStatusView::GameOver(
                    GameStatus::Win,
                )
            } else if tries == TRIES_LIMIT {
                &&& answered.0 == Ok::<DirectiveView, SessionError>(
                    DirectiveView::Reply(GameSessionEventView::GameOver(GameStatus::Lose)),
                )
                &&& answered.1.session(user).session_status == SessionStatusView::GameOver(
                    GameStatus::Lose,
                )
            } else {
                &&& answered.0 == Ok::<DirectiveView, SessionError>(
                    DirectiveView::Reply(event.to_session_event()),
                )
                &&& answered.1.session(user).session_status is WaitUserInput
            }
        }),
{
}

/// The orchestrator after a game was started for the sender of `ctx`, the
/// start request went out under `request_id`, and its reply was passed on.
pub open spec fn start_round_trip(
    game: GameSessionView,
    ctx: MessageContext,
    request_id: MessageId,
) -> GameSessionView {
    let user = ctx.source;
    let event = WordleEventView::GameStarted { user };
    game.handle(ctx, GameSessionActionView::StartGame).1.start_requested(
        user,
        ctx.id,
        request_id,
    ).1.handle_reply(request_id, event).1.handle(ctx, GameSessionActionView::StartGame).1
}

} // verus!
