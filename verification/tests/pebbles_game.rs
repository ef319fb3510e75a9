//! The pebbles game, with the random numbers chosen by the test.

use game_session::pebbles::{
    check_difficulty_level, check_pebbles_input, get_pebbles_to_remove, get_random_u32,
    handle_action, init_first_player, is_action_defined, is_program_move_defined,
    is_restart_defined, restart_game, take_program_turn, take_user_turn, DifficultyLevel,
    GameState, PebblesAction, PebblesEvent, PebblesInit, PebblesReply, Player,
};

/// A random number that makes the program move first.
const PROGRAM_FIRST: u32 = 1;
/// A random number that makes the user move first.
const USER_FIRST: u32 = 2;
/// A random number on which an easy program takes the maximum of three.
const TAKE_THREE: u32 = 2;

/// The game that the settings and the random numbers begin.
fn init(init_msg: PebblesInit, first_random: u32, turn_random: u32) -> GameState {
    assert!(check_difficulty_level(init_msg.difficulty));
    assert!(check_pebbles_input(init_msg.pebbles_count, init_msg.max_pebbles_per_turn));
    assert!(is_restart_defined(
        init_msg.difficulty,
        init_msg.pebbles_count,
        init_msg.max_pebbles_per_turn,
        first_random
    ));
    restart_game(
        init_msg.difficulty,
        init_msg.pebbles_count,
        init_msg.max_pebbles_per_turn,
        first_random,
        turn_random,
    )
}

fn send(state: &mut GameState, action: PebblesAction, first_random: u32, turn_random: u32) -> PebblesReply {
    assert!(is_action_defined(state, &action, first_random));
    handle_action(state, action, first_random, turn_random)
}

fn game(difficulty: DifficultyLevel, count: u32, max: u32, remaining: u32) -> GameState {
    GameState {
        difficulty,
        pebbles_count: count,
        max_pebbles_per_turn: max,
        pebbles_remaining: remaining,
        first_player: Player::User,
        winner: None,
    }
}

#[test]
fn test_check_pebbles_input() {
    let res: bool = check_pebbles_input(0, 0);
    assert!(res == false);
    let res: bool = check_pebbles_input(15, 16);
    assert!(res == false);
    let res: bool = check_pebbles_input(15, 2);
    assert!(res == true);
}

#[test]
fn test_check_difficulty_level() {
    let res: bool = check_difficulty_level(DifficultyLevel::Easy);
    assert!(res == true);
    let res: bool = check_difficulty_level(DifficultyLevel::Hard);
    assert!(res == true);
}

#[test]
fn test_init_success() {
    let init_msg = PebblesInit {
        difficulty: DifficultyLevel::Easy,
        pebbles_count: 10,
        max_pebbles_per_turn: 3,
    };

    let state: GameState = init(init_msg, PROGRAM_FIRST, TAKE_THREE);
    println!("{:?}", state);
    assert_eq!(state.pebbles_count, 10);
    assert_eq!(state.max_pebbles_per_turn, 3);
    assert_eq!(state.pebbles_remaining, 7);
    assert!(state.first_player == Player::User || state.first_player == Player::Program);
}

#[test]
fn test_who_turn() {
    let init_msg = PebblesInit {
        difficulty: DifficultyLevel::Easy,
        pebbles_count: 10,
        max_pebbles_per_turn: 3,
    };

    let mut state = init(init_msg, PROGRAM_FIRST, TAKE_THREE);
    let turn_action = PebblesAction::Turn(3);
    let res = send(&mut state, turn_action, PROGRAM_FIRST, TAKE_THREE);
    println!("{:?}", res);
    println!("State: {:?}", state);
    assert_eq!(state.first_player, Player::Program);
    assert_eq!(res, PebblesReply::Event(PebblesEvent::CounterTurn(1)));
}

#[test]
fn test_who_wins() {
    // One pebble with a maximum of one makes no game: the settings are
    // refused, so there is no state to read a winner from.
    let init_msg = PebblesInit {
        difficulty: DifficultyLevel::Easy,
        pebbles_count: 1,
        max_pebbles_per_turn: 1,
    };
    assert!(!check_pebbles_input(init_msg.pebbles_count, init_msg.max_pebbles_per_turn));
    assert!(!is_restart_defined(init_msg.difficulty, 1, 1, PROGRAM_FIRST));
    assert!(!is_restart_defined(init_msg.difficulty, 1, 1, USER_FIRST));

    // The smallest heap on which the program wins at once: the user leaves
    // one pebble, and the program takes it.
    let mut state = init(
        PebblesInit { difficulty: DifficultyLevel::Easy, pebbles_count: 2, max_pebbles_per_turn: 1 },
        USER_FIRST,
        0,
    );
    let res = send(&mut state, PebblesAction::Turn(1), USER_FIRST, 0);
    println!("State: {:?}", state);
    println!("{:?}", res);
    assert_eq!(state.winner, Some(Player::Program));
}

#[test]
fn test_restart_game() {
    let init_msg = PebblesInit {
        difficulty: DifficultyLevel::Easy,
        pebbles_count: 10,
        max_pebbles_per_turn: 3,
    };

    let mut state = init(init_msg, PROGRAM_FIRST, TAKE_THREE);

    let restart_action = PebblesAction::Restart {
        difficulty: DifficultyLevel::Hard,
        pebbles_count: 20,
        max_pebbles_per_turn: 5,
    };

    let res = send(&mut state, restart_action, PROGRAM_FIRST, TAKE_THREE);
    println!("{:?}", state);
    assert_eq!(state.pebbles_count, 20);
    assert_eq!(
        res,
        PebblesReply::Restarted(PebblesInit {
            difficulty: DifficultyLevel::Hard,
            pebbles_count: 20,
            max_pebbles_per_turn: 5,
        })
    );
    // The hard program moved first and took one less than the maximum.
    assert_eq!(state.pebbles_remaining, 16);
    assert_eq!(state.difficulty, DifficultyLevel::Hard);
    assert_eq!(state.winner, None);
}

#[test]
fn test_give_up() {
    let init_msg = PebblesInit {
        difficulty: DifficultyLevel::Easy,
        pebbles_count: 10,
        max_pebbles_per_turn: 3,
    };

    let mut state = init(init_msg, PROGRAM_FIRST, TAKE_THREE);

    let give_up_action = PebblesAction::GiveUp;
    let res = send(&mut state, give_up_action, PROGRAM_FIRST, TAKE_THREE);
    println!("{:?}", state);
    println!("{:?}", res);
    assert_eq!(state.winner, Some(Player::Program));
    assert_eq!(res, PebblesReply::Event(PebblesEvent::Won(Player::Program)));
    assert_eq!(state.pebbles_remaining, 7);
}

#[test]
fn random_number_reads_four_bytes_lowest_first() {
    let mut hash = [0u8; 32];
    assert_eq!(get_random_u32(&hash), 0);
    hash[0] = 0x78;
    hash[1] = 0x56;
    hash[2] = 0x34;
    hash[3] = 0x12;
    hash[4] = 0xff;
    hash[31] = 0xff;
    assert_eq!(get_random_u32(&hash), 0x1234_5678);
    assert_eq!(get_random_u32(&hash), u32::from_le_bytes([hash[0], hash[1], hash[2], hash[3]]));
    assert_eq!(get_random_u32(&[0xff; 32]), u32::MAX);
}

#[test]
fn first_player_follows_parity() {
    assert_eq!(init_first_player(0), Player::User);
    assert_eq!(init_first_player(1), Player::Program);
    assert_eq!(init_first_player(u32::MAX), Player::Program);
    assert_eq!(init_first_player(u32::MAX - 1), Player::User);
}

#[test]
fn easy_program_takes_between_one_and_the_maximum() {
    let mut state = game(DifficultyLevel::Easy, 10, 3, 10);
    let before = state;
    assert_eq!(get_pebbles_to_remove(&mut state, 0), 1);
    assert_eq!(get_pebbles_to_remove(&mut state, 1), 2);
    assert_eq!(get_pebbles_to_remove(&mut state, 2), 3);
    assert_eq!(get_pebbles_to_remove(&mut state, 3), 1);
    assert_eq!(get_pebbles_to_remove(&mut state, u32::MAX), 1);
    assert_eq!(state, before);
}

#[test]
fn hard_program_takes_all_it_can_or_one_less_than_the_maximum() {
    let mut state = game(DifficultyLevel::Hard, 10, 3, 10);
    assert_eq!(get_pebbles_to_remove(&mut state, 7), 2);
    state.pebbles_remaining = 4;
    assert_eq!(get_pebbles_to_remove(&mut state, 7), 2);
    state.pebbles_remaining = 3;
    assert_eq!(get_pebbles_to_remove(&mut state, 7), 3);
    state.pebbles_remaining = 1;
    assert_eq!(get_pebbles_to_remove(&mut state, 7), 1);
    // With a maximum of one the hard program passes.
    let mut state = game(DifficultyLevel::Hard, 10, 1, 10);
    assert_eq!(get_pebbles_to_remove(&mut state, 7), 0);
}

#[test]
fn program_move_is_undefined_without_a_maximum_or_past_the_largest_number() {
    assert!(!is_program_move_defined(&game(DifficultyLevel::Easy, 10, 0, 10)));
    assert!(is_program_move_defined(&game(DifficultyLevel::Easy, 10, 1, 10)));
    assert!(is_program_move_defined(&game(DifficultyLevel::Hard, 10, 0, 10)));
    assert!(!is_program_move_defined(&game(DifficultyLevel::Hard, u32::MAX, 1, u32::MAX)));
    assert!(is_program_move_defined(&game(DifficultyLevel::Hard, u32::MAX, 1, u32::MAX - 1)));
    assert!(is_program_move_defined(&game(DifficultyLevel::Hard, u32::MAX, u32::MAX, u32::MAX)));
    assert!(!is_restart_defined(DifficultyLevel::Hard, u32::MAX, 1, PROGRAM_FIRST));
    assert!(is_restart_defined(DifficultyLevel::Hard, u32::MAX, 1, USER_FIRST));
    assert!(is_restart_defined(DifficultyLevel::Easy, u32::MAX, 1, PROGRAM_FIRST));
}

#[test]
fn pebbles_input_edges() {
    assert!(!check_pebbles_input(0, 1));
    assert!(!check_pebbles_input(1, 0));
    assert!(!check_pebbles_input(1, 1));
    assert!(!check_pebbles_input(5, 5));
    assert!(check_pebbles_input(2, 1));
    assert!(check_pebbles_input(u32::MAX, u32::MAX - 1));
}

#[test]
fn restart_with_user_first_leaves_the_heap_full() {
    let state = restart_game(DifficultyLevel::Easy, 10, 3, USER_FIRST, TAKE_THREE);
    assert_eq!(
        state,
        GameState {
            difficulty: DifficultyLevel::Easy,
            pebbles_count: 10,
            max_pebbles_per_turn: 3,
            pebbles_remaining: 10,
            first_player: Player::User,
            winner: None,
        }
    );
}

#[test]
fn restart_with_program_first_removes_its_move() {
    let state = restart_game(DifficultyLevel::Easy, 10, 3, PROGRAM_FIRST, 0);
    assert_eq!(state.pebbles_remaining, 9);
    assert_eq!(state.first_player, Player::Program);
    let state = restart_game(DifficultyLevel::Hard, 10, 3, PROGRAM_FIRST, 0);
    assert_eq!(state.pebbles_remaining, 8);
}

#[test]
fn user_turn_is_capped_by_the_maximum_and_the_heap() {
    let mut state = game(DifficultyLevel::Easy, 10, 3, 10);
    take_user_turn(&mut state, 100);
    assert_eq!(state.pebbles_remaining, 7);
    take_user_turn(&mut state, 0);
    assert_eq!(state.pebbles_remaining, 7);
    take_user_turn(&mut state, 2);
    assert_eq!(state.pebbles_remaining, 5);
    assert_eq!(state.winner, None);
    state.pebbles_remaining = 3;
    take_user_turn(&mut state, 3);
    assert_eq!(state.pebbles_remaining, 0);
    assert_eq!(state.winner, Some(Player::User));
}

#[test]
fn program_turn_takes_the_last_pebbles_and_wins() {
    let mut state = game(DifficultyLevel::Hard, 10, 3, 2);
    take_program_turn(&mut state, 0);
    assert_eq!(state.pebbles_remaining, 0);
    assert_eq!(state.winner, Some(Player::Program));
    let mut state = game(DifficultyLevel::Easy, 10, 3, 5);
    take_program_turn(&mut state, 1);
    assert_eq!(state.pebbles_remaining, 3);
    assert_eq!(state.winner, None);
}

#[test]
fn user_who_takes_the_last_pebble_wins_before_the_program_moves() {
    let mut state = game(DifficultyLevel::Easy, 10, 3, 3);
    let res = send(&mut state, PebblesAction::Turn(3), USER_FIRST, TAKE_THREE);
    assert_eq!(res, PebblesReply::Event(PebblesEvent::Won(Player::User)));
    assert_eq!(state.winner, Some(Player::User));
    assert_eq!(state.pebbles_remaining, 0);
}

#[test]
fn a_turn_is_answered_with_what_remains() {
    let mut state = game(DifficultyLevel::Hard, 20, 5, 20);
    let res = send(&mut state, PebblesAction::Turn(5), USER_FIRST, 0);
    assert_eq!(res, PebblesReply::Event(PebblesEvent::CounterTurn(11)));
    assert_eq!(state.pebbles_remaining, 11);
    let res = send(&mut state, PebblesAction::Turn(5), USER_FIRST, 0);
    assert_eq!(res, PebblesReply::Event(PebblesEvent::CounterTurn(2)));
    let res = send(&mut state, PebblesAction::Turn(1), USER_FIRST, 0);
    assert_eq!(res, PebblesReply::Event(PebblesEvent::Won(Player::Program)));
    assert_eq!(state.winner, Some(Player::Program));
}

#[test]
fn a_restart_with_settings_that_make_no_game_is_undefined() {
    let state = game(DifficultyLevel::Easy, 10, 3, 10);
    let action =
        PebblesAction::Restart { difficulty: DifficultyLevel::Easy, pebbles_count: 3, max_pebbles_per_turn: 3 };
    assert!(!is_action_defined(&state, &action, USER_FIRST));
    assert!(is_action_defined(&state, &PebblesAction::GiveUp, USER_FIRST));
    // A turn in a game without a maximum is defined only if it ends the game.
    let state = game(DifficultyLevel::Easy, 10, 0, 10);
    assert!(!is_action_defined(&state, &PebblesAction::Turn(1), USER_FIRST));
    let state = game(DifficultyLevel::Easy, 10, 0, 0);
    assert!(is_action_defined(&state, &PebblesAction::Turn(1), USER_FIRST));
}
