//! The pebbles game: a user and the program take turns removing pebbles from
//! a heap, and whoever takes the last one wins.
//!
//! The game draws no random numbers itself: each function that needs one takes
//! it as an argument.
use vstd::prelude::*;

verus! {

/// How the program chooses its moves.
#[derive(Clone, Copy, Debug, PartialEq, Eq, Structural)]
pub enum DifficultyLevel {
    /// The program removes a random number of pebbles.
    Easy,
    /// The program follows a fixed rule.
    Hard,
}

#[derive(Clone, Copy, Debug, PartialEq, Eq, Structural)]
pub enum Player {
    User,
    Program,
}

/// The settings of a new game.
#[derive(Clone, Copy, Debug, PartialEq, Eq)]
pub struct PebblesInit {
    pub difficulty: DifficultyLevel,
    pub pebbles_count: u32,
    pub max_pebbles_per_turn: u32,
}

/// What a user can ask for.
#[derive(Clone, Copy, Debug, PartialEq, Eq)]
pub enum PebblesAction {
    /// Remove that many pebbles.
    Turn(u32),
    /// Concede the game.
    GiveUp,
    /// Drop the game and begin another.
    Restart { difficulty: DifficultyLevel, pebbles_count: u32, max_pebbles_per_turn: u32 },
}

/// What the program answers.
#[derive(Clone, Copy, Debug, PartialEq, Eq)]
pub enum PebblesEvent {
    /// The program has moved; that many pebbles remain.
    CounterTurn(u32),
    /// The game is over.
    Won(Player),
}

/// The game as it stands.
#[derive(Clone, Copy, Debug, PartialEq, Eq)]
pub struct GameState {
    pub pebbles_count: u32,
    pub max_pebbles_per_turn: u32,
    pub pebbles_remaining: u32,
    pub difficulty: DifficultyLevel,
    pub first_player: Player,
    pub winner: Option<Player>,
}

/// The answer to an action: an event of the game or, after a restart, the
/// settings that the new game was begun with.
#[derive(Clone, Copy, Debug, PartialEq, Eq)]
pub enum PebblesReply {
    Event(PebblesEvent),
    Restarted(PebblesInit),
}

/// The number that the first four bytes of the hash spell, lowest byte first.
pub open spec fn random_u32(hash: [u8; 32]) -> int {
    hash[0] + 256 * hash[1] + 65536 * hash[2] + 16777216 * hash[3]
}

/// Turns a random hash into a random number: its first four bytes, read
/// lowest byte first.
pub fn get_random_u32(hash: &[u8; 32]) -> (number: u32)
    ensures
        number == random_u32(*hash),
{
    let b0: u32 = hash[0] as u32;
    let b1: u32 = hash[1] as u32;
    let b2: u32 = hash[2] as u32;
    let b3: u32 = hash[3] as u32;
    b0 + 256 * b1 + 65536 * b2 + 16777216 * b3
}

/// Whether the program's move is defined in this state: an easy program
/// needs a positive maximum to draw below, and a hard one that faces more
/// pebbles than the maximum adds the two numbers, which must fit.
pub open spec fn program_move_defined(game: GameState) -> bool {
    match game.difficulty {
        DifficultyLevel::Easy => game.max_pebbles_per_turn > 0,
        DifficultyLevel::Hard => game.pebbles_remaining > game.max_pebbles_per_turn
            ==> game.pebbles_remaining + game.max_pebbles_per_turn <= u32::MAX,
    }
}

/// Whether the program's move is defined in this state.
pub fn is_program_move_defined(game: &GameState) -> (defined: bool)
    ensures
        defined == program_move_defined(*game),
{
    match game.difficulty {
        DifficultyLevel::Easy => game.max_pebbles_per_turn > 0,
        DifficultyLevel::Hard => game.pebbles_remaining <= game.max_pebbles_per_turn
            || game.pebbles_remaining <= u32::MAX - game.max_pebbles_per_turn,
    }
}

/// The number of pebbles that the program removes.
///
/// An easy program removes between one pebble and the maximum, as the random
/// number decides. A hard program takes all the pebbles if the maximum allows
/// it, and else one less than the maximum.
pub open spec fn pebbles_to_remove(game: GameState, random: u32) -> int {
    match game.difficulty {
        DifficultyLevel::Easy => random % game.max_pebbles_per_turn + 1,
        DifficultyLevel::Hard => if game.pebbles_remaining <= game.max_pebbles_per_turn {
            game.pebbles_remaining as int
        } else if game.max_pebbles_per_turn > 0 {
            game.max_pebbles_per_turn - 1
        } else {
            0
        },
    }
}

/// Chooses the program's move. The state is left as it is.
pub fn get_pebbles_to_remove(game_state: &mut GameState, random: u32) -> (pebbles: u32)
    requires
        program_move_defined(*old(game_state)),
    ensures
        pebbles == pebbles_to_remove(*old(game_state), random),
        *final(game_state) == *old(game_state),
{
    match game_state.difficulty {
        DifficultyLevel::Easy => (random % game_state.max_pebbles_per_turn) + 1,
        DifficultyLevel::Hard => {
            if game_state.pebbles_remaining <= game_state.max_pebbles_per_turn {
                game_state.pebbles_remaining
            } else if game_state.pebbles_remaining > game_state.max_pebbles_per_turn
                && game_state.pebbles_remaining < game_state.pebbles_remaining
                + game_state.max_pebbles_per_turn {
                game_state.max_pebbles_per_turn - 1
            } else {
                game_state.max_pebbles_per_turn
            }
        },
    }
}

/// Who moves first: the user on an even random number, the program on an odd one.
pub open spec fn first_player(random: u32) -> Player {
    if random % 2 == 0 {
        Player::User
    } else {
        Player::Program
    }
}

/// Chooses who moves first.
pub fn init_first_player(random: u32) -> (player: Player)
    ensures
        player == first_player(random),
{
    match random % 2 {
        0 => Player::User,
        _ => Player::Program,
    }
}

/// Whether the difficulty is one that the game knows. Every difficulty is.
pub fn check_difficulty_level(init_msg_difficulty: DifficultyLevel) -> (ok: bool)
    ensures
        ok,
{
    match init_msg_difficulty {
        DifficultyLevel::Easy => true,
        DifficultyLevel::Hard => true,
    }
}

/// The counts make a game: there is a pebble, a turn removes at least one,
/// and no turn can remove the whole heap.
pub open spec fn pebbles_input_ok(pebbles_count: u32, max_pebbles_per_turn: u32) -> bool {
    pebbles_count >= 1 && max_pebbles_per_turn >= 1 && max_pebbles_per_turn < pebbles_count
}

/// Whether the counts make a game.
pub fn check_pebbles_input(init_msg_pebbles_count: u32, init_msg_max_pebbles_per_turn: u32) -> (ok:
    bool)
    ensures
        ok == pebbles_input_ok(init_msg_pebbles_count, init_msg_max_pebbles_per_turn),
{
    if init_msg_pebbles_count < 1 || init_msg_max_pebbles_per_turn < 1
        || init_msg_max_pebbles_per_turn >= init_msg_pebbles_count {
        return false;
    }
    true
}

/// A game with the full heap, before anybody has moved.
pub open spec fn untouched_game(
    difficulty: DifficultyLevel,
    pebbles_count: u32,
    max_pebbles_per_turn: u32,
    first: Player,
) -> GameState {
    GameState {
        difficulty,
        pebbles_count,
        max_pebbles_per_turn,
        pebbles_remaining: pebbles_count,
        first_player: first,
        winner: None,
    }
}

/// Whether a game can be begun with these settings and random numbers: the
/// counts make a game and, if the program moves first, its move is defined.
pub open spec fn restart_defined(
    difficulty: DifficultyLevel,
    pebbles_count: u32,
    max_pebbles_per_turn: u32,
    first_random: u32,
) -> bool {
    &&& pebbles_input_ok(pebbles_count, max_pebbles_per_turn)
    &&& first_player(first_random) == Player::Program ==> program_move_defined(
        untouched_game(difficulty, pebbles_count, max_pebbles_per_turn, Player::Program),
    )
}

/// Whether a game can be begun with these settings and random numbers.
pub fn is_restart_defined(
    difficulty: DifficultyLevel,
    pebbles_count: u32,
    max_pebbles_per_turn: u32,
    first_random: u32,
) -> (defined: bool)
    ensures
        defined == restart_defined(difficulty, pebbles_count, max_pebbles_per_turn, first_random),
{
    if !check_pebbles_input(pebbles_count, max_pebbles_per_turn) {
        return false;
    }
    match init_first_player(first_random) {
        Player::User => true,
        Player::Program => is_program_move_defined(
            &GameState {
                difficulty,
                pebbles_count,
                max_pebbles_per_turn,
                pebbles_remaining: pebbles_count,
                first_player: Player::Program,
                winner: None,
            },
        ),
    }
}

/// The game as it begins: the full heap, less the program's move if the
/// program moves first.
pub open spec fn restarted_game(
    difficulty: DifficultyLevel,
    pebbles_count: u32,
    max_pebbles_per_turn: u32,
    first_random: u32,
    turn_random: u32,
) -> GameState {
    let first = first_player(first_random);
    let untouched = untouched_game(difficulty, pebbles_count, max_pebbles_per_turn, first);
    match first {
        Player::User => untouched,
        Player::Program => GameState {
            pebbles_remaining: (pebbles_count - pebbles_to_remove(untouched, turn_random)) as u32,
            ..untouched
        },
    }
}

/// Begins a game. `first_random` decides who moves first, and `turn_random`
/// the program's move if it is the program.
pub fn restart_game(
    init_msg_difficulty: DifficultyLevel,
    init_msg_pebbles_count: u32,
    init_msg_max_pebbles_per_turn: u32,
    first_random: u32,
    turn_random: u32,
) -> (game: GameState)
    requires
        restart_defined(
            init_msg_difficulty,
            init_msg_pebbles_count,
            init_msg_max_pebbles_per_turn,
            first_random,
        ),
    ensures
        game == restarted_game(
            init_msg_difficulty,
            init_msg_pebbles_count,
            init_msg_max_pebbles_per_turn,
            first_random,
            turn_random,
        ),
        0 < game.pebbles_remaining <= game.pebbles_count,
{
    let first = init_first_player(first_random);
    let mut pebbles_game = GameState {
        difficulty: init_msg_difficulty,
        pebbles_count: init_msg_pebbles_count,
        max_pebbles_per_turn: init_msg_max_pebbles_per_turn,
        pebbles_remaining: init_msg_pebbles_count,
        first_player: first,
        winner: None,
    };
    if first == Player::Program {
        let program_turn: u32 = get_pebbles_to_remove(&mut pebbles_game, turn_random);
        pebbles_game.pebbles_remaining -= program_turn;
    }
    pebbles_game
}

/// The game after the user has removed pebbles: as many as asked for, but no
/// more than the maximum nor than there are. Taking the last pebble wins.
pub open spec fn after_user_turn(game: GameState, pebbles: u32) -> GameState {
    let taken = if pebbles > game.max_pebbles_per_turn {
        game.max_pebbles_per_turn
    } else {
        pebbles
    };
    if taken < game.pebbles_remaining {
        GameState { pebbles_remaining: (game.pebbles_remaining - taken) as u32, ..game }
    } else {
        GameState { pebbles_remaining: 0, winner: Some(Player::User), ..game }
    }
}

/// The game after the program has removed pebbles: as many as its rule says,
/// but no more than there are. Taking the last pebble wins.
pub open spec fn after_program_turn(game: GameState, random: u32) -> GameState {
    let taken = pebbles_to_remove(game, random);
    if taken < game.pebbles_remaining {
        GameState { pebbles_remaining: (game.pebbles_remaining - taken) as u32, ..game }
    } else {
        GameState { pebbles_remaining: 0, winner: Some(Player::Program), ..game }
    }
}

/// Lets the user remove pebbles.
pub fn take_user_turn(game: &mut GameState, pebbles: u32)
    ensures
        *final(game) == after_user_turn(*old(game), pebbles),
{
    let mut taken: u32 = pebbles;
    if taken > game.max_pebbles_per_turn {
        taken = game.max_pebbles_per_turn;
    }
    if taken < game.pebbles_remaining {
        game.pebbles_remaining -= taken;
    } else {
        game.pebbles_remaining = 0;
        game.winner = Some(Player::User);
    }
}

/// Lets the program remove pebbles.
pub fn take_program_turn(game: &mut GameState, random: u32)
    requires
        program_move_defined(*old(game)),
    ensures
        *final(game) == after_program_turn(*old(game), random),
{
    let program_turn: u32 = get_pebbles_to_remove(game, random);
    if program_turn < game.pebbles_remaining {
        game.pebbles_remaining -= program_turn;
    } else {
        game.pebbles_remaining = 0;
        game.winner = Some(Player::Program);
    }
}

/// Whether the action can be handled in this state with these random numbers.
pub open spec fn action_defined(game: GameState, action: PebblesAction, first_random: u32) -> bool {
    match action {
        PebblesAction::Turn(pebbles) => after_user_turn(game, pebbles).pebbles_remaining > 0
            ==> program_move_defined(after_user_turn(game, pebbles)),
        PebblesAction::GiveUp => true,
        PebblesAction::Restart {
            difficulty,
            pebbles_count,
            max_pebbles_per_turn,
        } => restart_defined(difficulty, pebbles_count, max_pebbles_per_turn, first_random),
    }
}

/// Whether the action can be handled in this state with these random numbers.
pub fn is_action_defined(game: &GameState, action: &PebblesAction, first_random: u32) -> (defined:
    bool)
    ensures
        defined == action_defined(*game, *action, first_random),
{
    match action {
        PebblesAction::Turn(pebbles) => {
            let mut user_moved = *game;
            take_user_turn(&mut user_moved, *pebbles);
            user_moved.pebbles_remaining == 0 || is_program_move_defined(&user_moved)
        },
        PebblesAction::GiveUp => true,
        PebblesAction::Restart {
            difficulty,
            pebbles_count,
            max_pebbles_per_turn,
        } => is_restart_defined(*difficulty, *pebbles_count, *max_pebbles_per_turn, first_random),
    }
}

/// The game after the action, and the answer to it.
///
/// A turn of the user is followed by a turn of the program unless the user
/// took the last pebble. Conceding makes the program the winner. A restart
/// replaces the game.
pub open spec fn handled(
    game: GameState,
    action: PebblesAction,
    first_random: u32,
    turn_random: u32,
) -> (GameState, PebblesReply) {
    match action {
        PebblesAction::Turn(pebbles) => {
            let user_moved = after_user_turn(game, pebbles);
            if user_moved.pebbles_remaining == 0 {
                (user_moved, PebblesReply::Event(PebblesEvent::Won(Player::User)))
            } else {
                let program_moved = after_program_turn(user_moved, turn_random);
                if program_moved.pebbles_remaining == 0 {
                    (program_moved, PebblesReply::Event(PebblesEvent::Won(Player::Program)))
                } else {
                    (
                        program_moved,
                        PebblesReply::Event(
                            PebblesEvent::CounterTurn(program_moved.pebbles_remaining),
                        ),
                    )
                }
            }
        },
        PebblesAction::GiveUp => (
            GameState { winner: Some(Player::Program), ..game },
            PebblesReply::Event(PebblesEvent::Won(Player::Program)),
        ),
        PebblesAction::Restart { difficulty, pebbles_count, max_pebbles_per_turn } => (
            restarted_game(
                difficulty,
                pebbles_count,
                max_pebbles_per_turn,
                first_random,
                turn_random,
            ),
            PebblesReply::Restarted(PebblesInit { difficulty, pebbles_count, max_pebbles_per_turn }),
        ),
    }
}

/// Handles an action of the user. `first_random` decides who moves first
/// after a restart, and `turn_random` decides the program's move.
pub fn handle_action(
    game: &mut GameState,
    action: PebblesAction,
    first_random: u32,
    turn_random: u32,
) -> (reply: PebblesReply)
    requires
        action_defined(*old(game), action, first_random),
    ensures
        *final(game) == handled(*old(game), action, first_random, turn_random).0,
        reply == handled(*old(game), action, first_random, turn_random).1,
{
    match action {
        PebblesAction::GiveUp => {
            game.winner = Some(Player::Program);
            PebblesReply::Event(PebblesEvent::Won(Player::Program))
        },
        PebblesAction::Restart { difficulty, pebbles_count, max_pebbles_per_turn } => {
            *game = restart_game(
                difficulty,
                pebbles_count,
                max_pebbles_per_turn,
                first_random,
                turn_random,
            );
            PebblesReply::Restarted(PebblesInit { difficulty, pebbles_count, max_pebbles_per_turn })
        },
        PebblesAction::Turn(pebbles) => {
            take_user_turn(game, pebbles);
            if game.pebbles_remaining == 0 {
                return PebblesReply::Event(PebblesEvent::Won(Player::User));
            }
            take_program_turn(game, turn_random);
            if game.pebbles_remaining == 0 {
                PebblesReply::Event(PebblesEvent::Won(Player::Program))
            } else {
                PebblesReply::Event(PebblesEvent::CounterTurn(game.pebbles_remaining))
            }
        },
    }
}

} // verus!
