//! The rules of one session, and the small parts around it.

use game_session::directive::{Directive, Timer, TIMEOUT_DELAY};
use game_session::error::SessionError;
use game_session::ids::{ActorId, MessageId};
use game_session::messages::{
    GameSessionAction, GameSessionEvent, GameSessionInit, GameStatus, WordleAction, WordleEvent,
};
use game_session::orchestrator::{GameSession, MessageContext};
use game_session::session::{SessionInfo, SessionStatus, TRIES_LIMIT};
use game_session::store::SessionStore;
use game_session::word::{is_valid_word, WORD_LENGTH};

fn actor(id: u8) -> ActorId {
    let mut bytes = [0u8; 32];
    bytes[12] = id;
    ActorId::new(bytes)
}

fn message(id: u8) -> MessageId {
    let mut bytes = [0u8; 32];
    bytes[0] = id;
    MessageId::new(bytes)
}

fn session(status: SessionStatus, tries: u8) -> SessionInfo {
    SessionInfo {
        session_id: message(1),
        original_msg_id: message(2),
        send_to_wordle_msg_id: message(3),
        tries,
        session_status: status,
    }
}

fn checked(correct: Vec<u8>, contained: Vec<u8>) -> WordleEvent {
    WordleEvent::WordChecked { user: actor(9), correct_positions: correct, contained_in_word: contained }
}

fn every_status() -> Vec<SessionStatus> {
    vec![
        SessionStatus::Init,
        SessionStatus::WaitUserInput,
        SessionStatus::WaitWordleStartReply,
        SessionStatus::WaitWordleCheckWordReply,
        SessionStatus::ReplyReceived(WordleEvent::GameStarted { user: actor(9) }),
        SessionStatus::ReplyReceived(checked(vec![0, 1, 3, 4], vec![])),
        SessionStatus::GameOver(GameStatus::Win),
        SessionStatus::GameOver(GameStatus::Lose),
    ]
}

#[test]
fn constants() {
    assert_eq!(TRIES_LIMIT, 5);
    assert_eq!(TIMEOUT_DELAY, 200);
    assert_eq!(WORD_LENGTH, 5);
}

#[test]
fn identifiers_compare_by_their_bytes() {
    assert_eq!(actor(1), actor(1));
    assert_ne!(actor(1), actor(2));
    assert_eq!(message(7), message(7));
    assert_ne!(message(7), message(8));
    let mut bytes = [0u8; 32];
    bytes[31] = 1;
    assert_ne!(ActorId::new(bytes), ActorId::zero());
    assert_eq!(ActorId::new(bytes).into_bytes(), bytes);
    assert_eq!(MessageId::new(bytes).into_bytes(), bytes);
    assert!(ActorId::zero().is_zero());
    assert!(ActorId::new([0u8; 32]).is_zero());
    assert!(!ActorId::new(bytes).is_zero());
    assert!(MessageId::zero().is_zero());
    assert!(!MessageId::new(bytes).is_zero());
    assert_eq!(ActorId::zero().into_bytes(), [0u8; 32]);
}

#[test]
fn words_are_five_lowercase_letters() {
    assert!(is_valid_word("house"));
    assert!(is_valid_word("abcde"));
    assert!(is_valid_word("zzzzz"));
    assert!(!is_valid_word(""));
    assert!(!is_valid_word("hous"));
    assert!(!is_valid_word("houses"));
    assert!(!is_valid_word("House"));
    assert!(!is_valid_word("housE"));
    assert!(!is_valid_word("hou e"));
    assert!(!is_valid_word("hou5e"));
    assert!(!is_valid_word("hou_e"));
    assert!(!is_valid_word("\u{4e2d}\u{4e2d}\u{4e2d}\u{4e2d}\u{4e2d}"));
    assert!(is_valid_word("\u{3b4}\u{3b4}\u{3b4}\u{3b4}\u{3b4}"));
    assert!(!is_valid_word("\u{394}\u{3b4}\u{3b4}\u{3b4}\u{3b4}"));
}

#[test]
fn configuration_must_name_a_service() {
    let none = GameSessionInit { wordle_program_id: ActorId::zero() };
    assert!(!none.is_valid());
    assert_eq!(GameSession::new(none).err(), Some(SessionError::InvalidServiceAddress));
    let some = GameSessionInit { wordle_program_id: actor(2) };
    assert!(some.is_valid());
    let game = GameSession::new(some).ok().expect("a service is named");
    assert_eq!(game.wordle_program_id(), actor(2));
    let state = game.state();
    assert_eq!(state.wordle_program_id, actor(2));
    assert!(state.game_sessions.is_empty());
}

#[test]
fn rejections_say_why() {
    assert_eq!(SessionError::UserInGame.message(), "The user is in the game");
    assert_eq!(SessionError::UserNotInGame.message(), "The user is not in the game");
    assert_eq!(SessionError::InvalidWord.message(), "Invalid word");
    assert_eq!(
        SessionError::InvalidServiceAddress.message(),
        "Invalid address of the guessing service"
    );
    assert_eq!(SessionError::RequestNotExpected.message(), "No request is expected for the user");
}

#[test]
fn initial_record() {
    let info = SessionInfo::default();
    assert_eq!(
        info,
        SessionInfo {
            session_id: MessageId::zero(),
            original_msg_id: MessageId::zero(),
            send_to_wordle_msg_id: MessageId::zero(),
            tries: 0,
            session_status: SessionStatus::Init,
        }
    );
    assert!(!info.is_wait_reply_status());
    assert!(!info.is_game_over());
}

#[test]
fn waiting_and_over() {
    for status in every_status() {
        let waiting = matches!(
            status,
            SessionStatus::WaitWordleStartReply | SessionStatus::WaitWordleCheckWordReply
        );
        let over = matches!(status, SessionStatus::GameOver(_));
        let info = session(status, 0);
        assert_eq!(info.is_wait_reply_status(), waiting);
        assert_eq!(info.is_game_over(), over);
        assert_eq!(info.clone(), info);
    }
}

#[test]
fn events_are_passed_on_without_the_user() {
    let started = WordleEvent::GameStarted { user: actor(9) };
    assert_eq!(*started.get_user(), actor(9));
    assert!(!started.has_guessed());
    assert_eq!(started.to_session_event(), GameSessionEvent::StartSuccess);

    let partial = checked(vec![0, 1, 3, 4], vec![2]);
    assert_eq!(*partial.get_user(), actor(9));
    assert!(!partial.has_guessed());
    assert_eq!(
        partial.to_session_event(),
        GameSessionEvent::CheckWordResult { correct_positions: vec![0, 1, 3, 4], contained_in_word: vec![2] }
    );
    assert_eq!(partial.clone(), partial);
}

#[test]
fn only_all_five_positions_in_order_are_a_full_match() {
    assert!(checked(vec![0, 1, 2, 3, 4], vec![]).has_guessed());
    assert!(!checked(vec![], vec![]).has_guessed());
    assert!(!checked(vec![0, 1, 2, 3], vec![4]).has_guessed());
    assert!(!checked(vec![0, 1, 2, 3, 4, 5], vec![]).has_guessed());
    assert!(!checked(vec![4, 3, 2, 1, 0], vec![]).has_guessed());
    assert!(!checked(vec![0, 1, 2, 3, 3], vec![]).has_guessed());
    assert!(!checked(vec![], vec![0, 1, 2, 3, 4]).has_guessed());
}

#[test]
fn start_game_in_every_status() {
    for status in every_status() {
        let mut info = session(status.clone(), 3);
        let outcome = info.start_game(actor(9));
        match status {
            SessionStatus::ReplyReceived(event) => {
                assert_eq!(outcome, Ok(Directive::Reply(event.to_session_event())));
                assert_eq!(info, session(SessionStatus::WaitUserInput, 3));
            }
            SessionStatus::Init
            | SessionStatus::GameOver(_)
            | SessionStatus::WaitWordleStartReply => {
                assert_eq!(
                    outcome,
                    Ok(Directive::Request(WordleAction::StartGame { user: actor(9) }))
                );
                assert_eq!(info, session(status, 3));
            }
            SessionStatus::WaitUserInput | SessionStatus::WaitWordleCheckWordReply => {
                assert_eq!(outcome, Err(SessionError::UserInGame));
                assert_eq!(info, session(status, 3));
            }
        }
    }
}

#[test]
fn start_requested_in_every_status() {
    for status in every_status() {
        let mut info = session(status.clone(), 3);
        let outcome = info.start_requested(actor(9), message(10), message(11));
        match status {
            SessionStatus::Init
            | SessionStatus::GameOver(_)
            | SessionStatus::WaitWordleStartReply => {
                assert_eq!(
                    outcome,
                    Ok(Timer { user: actor(9), session_id: message(10), delay: 200 })
                );
                assert_eq!(
                    info,
                    SessionInfo {
                        session_id: message(10),
                        original_msg_id: message(10),
                        send_to_wordle_msg_id: message(11),
                        tries: 0,
                        session_status: SessionStatus::WaitWordleStartReply,
                    }
                );
            }
            _ => {
                assert_eq!(outcome, Err(SessionError::RequestNotExpected));
                assert_eq!(info, session(status, 3));
            }
        }
    }
}

#[test]
fn check_word_in_every_status() {
    for valid in [true, false] {
        for status in every_status() {
            let mut info = session(status.clone(), 2);
            let outcome = info.check_word(actor(9), "house".to_string(), valid);
            match status {
                SessionStatus::ReplyReceived(event) => {
                    // The word was checked before the request went out.
                    assert_eq!(outcome, Ok(Directive::Reply(event.to_session_event())));
                    assert_eq!(info, session(SessionStatus::WaitUserInput, 3));
                }
                SessionStatus::WaitUserInput | SessionStatus::WaitWordleCheckWordReply => {
                    if valid {
                        let request =
                            WordleAction::CheckWord { user: actor(9), word: "house".to_string() };
                        assert_eq!(outcome, Ok(Directive::Request(request)));
                    } else {
                        assert_eq!(outcome, Err(SessionError::InvalidWord));
                    }
                    assert_eq!(info, session(status, 2));
                }
                SessionStatus::Init
                | SessionStatus::WaitWordleStartReply
                | SessionStatus::GameOver(_) => {
                    assert_eq!(outcome, Err(SessionError::UserNotInGame));
                    assert_eq!(info, session(status, 2));
                }
            }
        }
    }
}

#[test]
fn a_reply_uses_one_try() {
    let miss = checked(vec![0, 1, 3, 4], vec![]);
    for tries in 0..4u8 {
        let mut info = session(SessionStatus::ReplyReceived(miss.clone()), tries);
        let outcome = info.check_word(actor(9), "house".to_string(), true);
        assert_eq!(outcome, Ok(Directive::Reply(miss.to_session_event())));
        assert_eq!(info, session(SessionStatus::WaitUserInput, tries + 1));
    }
}

#[test]
fn the_last_miss_loses() {
    let miss = checked(vec![0, 1, 3, 4], vec![]);
    let mut info = session(SessionStatus::ReplyReceived(miss), 4);
    let outcome = info.check_word(actor(9), "house".to_string(), true);
    assert_eq!(outcome, Ok(Directive::Reply(GameSessionEvent::GameOver(GameStatus::Lose))));
    assert_eq!(info, session(SessionStatus::GameOver(GameStatus::Lose), 5));
}

#[test]
fn a_full_match_wins_on_any_try() {
    for tries in 0..5u8 {
        let hit = checked(vec![0, 1, 2, 3, 4], vec![]);
        let mut info = session(SessionStatus::ReplyReceived(hit), tries);
        let outcome = info.check_word(actor(9), "horse".to_string(), true);
        assert_eq!(outcome, Ok(Directive::Reply(GameSessionEvent::GameOver(GameStatus::Win))));
        assert_eq!(info, session(SessionStatus::GameOver(GameStatus::Win), tries + 1));
    }
}

#[test]
fn check_requested_in_every_status() {
    for status in every_status() {
        let mut info = session(status.clone(), 3);
        let outcome = info.check_requested(message(10), message(11));
        match status {
            SessionStatus::WaitUserInput | SessionStatus::WaitWordleCheckWordReply => {
                assert_eq!(outcome, Ok(()));
                assert_eq!(
                    info,
                    SessionInfo {
                        session_id: message(1),
                        original_msg_id: message(10),
                        send_to_wordle_msg_id: message(11),
                        tries: 3,
                        session_status: SessionStatus::WaitWordleCheckWordReply,
                    }
                );
            }
            _ => {
                assert_eq!(outcome, Err(SessionError::RequestNotExpected));
                assert_eq!(info, session(status, 3));
            }
        }
    }
}

#[test]
fn timeout_in_every_status() {
    for status in every_status() {
        let over = matches!(status, SessionStatus::GameOver(_));
        // The timeout of another game.
        let mut info = session(status.clone(), 3);
        assert!(!info.check_game_status(message(2)));
        assert_eq!(info, session(status.clone(), 3));
        // The timeout of this game.
        let mut info = session(status.clone(), 3);
        let timed_out = info.check_game_status(message(1));
        assert_eq!(timed_out, !over);
        if over {
            assert_eq!(info, session(status, 3));
        } else {
            assert_eq!(info, session(SessionStatus::GameOver(GameStatus::Lose), 3));
        }
    }
}

#[test]
fn reply_in_every_status() {
    let event = checked(vec![2], vec![0]);
    for status in every_status() {
        let waiting = matches!(
            status,
            SessionStatus::WaitWordleStartReply | SessionStatus::WaitWordleCheckWordReply
        );
        // A reply to another request.
        let mut info = session(status.clone(), 3);
        assert_eq!(info.reply_received(message(4), event.clone()), None);
        assert_eq!(info, session(status.clone(), 3));
        // A reply to the request that was sent last.
        let mut info = session(status.clone(), 3);
        let wake = info.reply_received(message(3), event.clone());
        if waiting {
            assert_eq!(wake, Some(message(2)));
            assert_eq!(info, session(SessionStatus::ReplyReceived(event.clone()), 3));
        } else {
            assert_eq!(wake, None);
            assert_eq!(info, session(status, 3));
        }
    }
}

#[test]
fn timer_carries_the_timeout_check() {
    let timer = Timer { user: actor(9), session_id: message(1), delay: TIMEOUT_DELAY };
    assert_eq!(
        timer.action(),
        GameSessionAction::CheckGameStatus { user: actor(9), session_id: message(1) }
    );
}

#[test]
fn store_keeps_one_record_per_user_in_order_of_arrival() {
    let mut store = SessionStore::new();
    assert_eq!(store.len(), 0);
    assert_eq!(store.get(&actor(1)), None);
    store.insert(actor(1), session(SessionStatus::Init, 0));
    store.insert(actor(2), session(SessionStatus::WaitUserInput, 1));
    store.insert(actor(1), session(SessionStatus::GameOver(GameStatus::Win), 2));
    assert_eq!(store.len(), 2);
    assert_eq!(store.get(&actor(1)), Some(&session(SessionStatus::GameOver(GameStatus::Win), 2)));
    assert_eq!(store.get(&actor(2)), Some(&session(SessionStatus::WaitUserInput, 1)));
    assert_eq!(store.get(&actor(3)), None);
    assert_eq!(
        store.to_vec(),
        vec![
            (actor(1), session(SessionStatus::GameOver(GameStatus::Win), 2)),
            (actor(2), session(SessionStatus::WaitUserInput, 1)),
        ]
    );
}

#[test]
fn unexpected_requests_are_rejected_and_change_nothing() {
    let mut game = GameSession::new(GameSessionInit { wordle_program_id: actor(2) }).unwrap();
    // No guess can be on its way for a user without a game.
    assert_eq!(
        game.check_requested(actor(9), message(1), message(2)),
        Err(SessionError::RequestNotExpected)
    );
    assert_eq!(game.session(&actor(9)), None);
    // A start request can.
    assert!(game.start_requested(actor(9), message(1), message(2)).is_ok());
    assert_eq!(game.handle_reply(message(2), WordleEvent::GameStarted { user: actor(9) }), Some(message(1)));
    // With the reply at hand, no request is expected.
    let before = game.state();
    assert_eq!(
        game.start_requested(actor(9), message(3), message(4)),
        Err(SessionError::RequestNotExpected)
    );
    assert_eq!(
        game.check_requested(actor(9), message(3), message(4)),
        Err(SessionError::RequestNotExpected)
    );
    assert_eq!(game.state(), before);
}

#[test]
fn stale_and_duplicate_replies_are_dropped() {
    let mut game = GameSession::new(GameSessionInit { wordle_program_id: actor(2) }).unwrap();
    let user = actor(9);
    let started = WordleEvent::GameStarted { user };
    // A reply for a user without a record.
    assert_eq!(game.handle_reply(message(2), started.clone()), None);
    assert!(game.state().game_sessions.is_empty());

    assert!(game.start_requested(user, message(1), message(2)).is_ok());
    let before = game.state();
    // A reply to another request.
    assert_eq!(game.handle_reply(message(3), started.clone()), None);
    // A reply that names another user.
    assert_eq!(game.handle_reply(message(2), WordleEvent::GameStarted { user: actor(8) }), None);
    assert_eq!(game.state(), before);
    // The awaited reply, and then the same reply again.
    assert_eq!(game.handle_reply(message(2), started.clone()), Some(message(1)));
    let before = game.state();
    assert_eq!(game.handle_reply(message(2), started), None);
    assert_eq!(game.state(), before);
}

#[test]
fn a_reply_at_hand_is_consumed_by_the_next_message_of_the_user() {
    let mut game = GameSession::new(GameSessionInit { wordle_program_id: actor(2) }).unwrap();
    let user = actor(9);
    assert!(game.start_requested(user, message(1), message(2)).is_ok());
    assert_eq!(game.handle_reply(message(2), WordleEvent::GameStarted { user }), Some(message(1)));
    // A guess, even a malformed one, takes the reply: no request goes out.
    let ctx = MessageContext { id: message(5), source: user, program_id: actor(1) };
    let outcome = game.handle(&ctx, GameSessionAction::CheckWord { word: "NOPE".to_string() });
    assert_eq!(outcome, Ok(Directive::Reply(GameSessionEvent::StartSuccess)));
    let info = game.session(&user).unwrap();
    assert_eq!(info.session_status, SessionStatus::WaitUserInput);
    assert_eq!(info.tries, 1);
}

#[test]
fn a_start_request_comes_with_a_timer_and_a_guess_with_none() {
    let mut game = GameSession::new(GameSessionInit { wordle_program_id: actor(2) }).unwrap();
    let user = actor(9);
    let guess = WordleAction::CheckWord { user, word: "house".to_string() };
    assert_eq!(
        game.request_sent(&guess, message(1), message(2)),
        Err(SessionError::RequestNotExpected)
    );
    let start = WordleAction::StartGame { user };
    assert_eq!(
        game.request_sent(&start, message(1), message(2)),
        Ok(Some(Timer { user, session_id: message(1), delay: 200 }))
    );
    assert_eq!(game.handle_reply(message(2), WordleEvent::GameStarted { user }), Some(message(1)));
    let ctx = MessageContext { id: message(1), source: user, program_id: actor(1) };
    assert_eq!(
        game.handle(&ctx, GameSessionAction::StartGame),
        Ok(Directive::Reply(GameSessionEvent::StartSuccess))
    );
    assert_eq!(game.request_sent(&guess, message(3), message(4)), Ok(None));
    let info = game.session(&user).unwrap();
    assert_eq!(info.session_id, message(1));
    assert_eq!(info.original_msg_id, message(3));
    assert_eq!(info.send_to_wordle_msg_id, message(4));
    assert_eq!(info.session_status, SessionStatus::WaitWordleCheckWordReply);
    assert_eq!(
        game.request_sent(&start, message(5), message(6)),
        Err(SessionError::RequestNotExpected)
    );
}
