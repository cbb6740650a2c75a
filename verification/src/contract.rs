//! The operation dispatcher and the per-operation handlers: the game state
//! machine, the collision detector, the food spawner, and the points ledger
//! with its high-score tracker.

use crate::state::distinct_cells;
use crate::state::is_initial_game;
use crate::state::sat_add;
use crate::state::sat_add_spec;
use crate::state::step_position;
use crate::state::spawned_food_spec;
use crate::state::stepped_spec;
use crate::state::wrap64;
use crate::state::Direction;
use crate::state::GameState;
use crate::state::JeteeahState;
use crate::state::Position;
use crate::Operation;
use std::collections::HashMap;
use vstd::prelude::*;

verus! {

broadcast use vstd::std_specs::hash::group_hash_axioms;

/// A fatal anomaly: the whole operation aborts and nothing is committed.
#[derive(Clone, Copy, Debug, PartialEq, Eq, Structural)]
pub enum OperationError {
    /// The operation requires a caller identity and none was resolved.
    NotAuthenticated,
    /// A player-scoped operation found no existing game for the caller.
    GameNotFound,
}

/// Decides whether moving the head to `position` is a collision: true iff
/// `position` is off the board or coincides with a body cell. The head is
/// tested against the full pre-move body, including the tail cell about to
/// be vacated, so moving into the vacating tail cell counts as a collision.
pub fn check_collision_internal(game: &GameState, position: &Position) -> (r: bool)
    ensures
        r == game.collides_with(*position),
{
    if position.x < 0 || position.x >= game.width || position.y < 0 || position.y >= game.height {
        return true;
    }
    let body_len = game.snake_body.len();
    let mut i: usize = 0;
    while i < body_len
        invariant
            body_len == game.snake_body@.len(),
            0 <= i <= body_len,
            forall|j: int| 0 <= j < i ==> game.snake_body@[j] != *position,
        decreases body_len - i,
    {
        let segment = game.snake_body[i];
        if segment.x == position.x && segment.y == position.y {
            assert(game.snake_body@[i as int] == *position);
            return true;
        }
        i += 1;
    }
    false
}

/// Draws the next food cell with the deterministic placement formula, from
/// the game's score and body length alone. The formula does not avoid the
/// snake's body, so food can appear under the snake.
pub fn spawn_food_internal(game: &GameState) -> (r: Position)
    requires
        0 < game.width,
        0 < game.height,
    ensures
        r == spawned_food_spec(game.score, game.snake_body@.len(), game.width, game.height),
        game.in_board(r),
{
    let len64: u64 = game.snake_body.len() as u64;
    let seed: u64 = (((game.score as u128) + (len64 as u128)) % 0x1_0000_0000_0000_0000u128) as u64;
    let xw: u64 = ((((seed as u128) * 7) + 13) % 0x1_0000_0000_0000_0000u128) as u64;
    let yw: u64 = ((((seed as u128) * 11) + 17) % 0x1_0000_0000_0000_0000u128) as u64;
    let x: u64 = xw % (game.width as u64);
    let y: u64 = yw % (game.height as u64);
    assert(seed == wrap64(game.score + game.snake_body@.len()));
    assert(xw == wrap64(seed * 7 + 13));
    assert(yw == wrap64(seed * 11 + 17));
    Position { x: x as i32, y: y as i32 }
}

/// The shared configuration and the demo counter are unchanged.
pub open spec fn same_config(pre: JeteeahState, post: JeteeahState) -> bool {
    &&& post.value == pre.value
    &&& post.game_width == pre.game_width
    &&& post.game_height == pre.game_height
    &&& post.food_spawn_rate == pre.food_spawn_rate
}

/// The player's points balance, defaulting to zero before the first write.
pub open spec fn cur_points(s: JeteeahState, player: u64) -> u64 {
    if s.points@.contains_key(player) {
        s.points@[player]
    } else {
        0
    }
}

/// The player's recorded high score, defaulting to zero before the first
/// write.
pub open spec fn cur_high(s: JeteeahState, player: u64) -> u64 {
    if s.high_scores@.contains_key(player) {
        s.high_scores@[player]
    } else {
        0
    }
}

/// `StartGame` (and the restart half of `ResetGame`): the caller's entry is
/// overwritten with a fresh game on the current shared board configuration;
/// everything else is untouched.
pub open spec fn start_game_rel(pre: JeteeahState, post: JeteeahState, player: u64) -> bool {
    &&& same_config(pre, post)
    &&& post.points@ == pre.points@
    &&& post.high_scores@ == pre.high_scores@
    &&& post.games@.contains_key(player)
    &&& is_initial_game(post.games@[player], pre.game_width, pre.game_height)
    &&& post.games@ == pre.games@.insert(player, post.games@[player])
}

/// A `MoveSnake` call that leaves the game untouched: the game is over or
/// paused, or the requested direction would reverse the snake into its own
/// second segment.
pub open spec fn move_blocked(g: GameState, dir: Direction) -> bool {
    ||| !g.is_active
    ||| g.is_paused
    ||| (dir == g.direction.opposite_spec() && g.snake_body@.len() > 1)
}

/// A successful, unblocked `MoveSnake` eats the food iff the new head lands
/// exactly on the food cell (and does not collide first).
pub open spec fn move_eats(g: GameState, dir: Direction) -> bool {
    &&& !move_blocked(g, dir)
    &&& !g.collides_with(stepped_spec(g.head_spec(), dir))
    &&& stepped_spec(g.head_spec(), dir) == g.food_position
}

/// How one `MoveSnake` step transforms the caller's game alone.
/// Blocked: unchanged. Collision of the stepped head (tested against the
/// full pre-move body): the direction is recorded and the game deactivates,
/// with body and score untouched. Food eaten: the head is prepended, the
/// score grows by ten (saturating), and food is redrawn from the updated
/// score and length. Otherwise the snake translates by one cell.
pub open spec fn game_after_move(g: GameState, dir: Direction, post: GameState) -> bool {
    if move_blocked(g, dir) {
        post == g
    } else {
        let nh = stepped_spec(g.head_spec(), dir);
        if g.collides_with(nh) {
            &&& post.snake_body@ == g.snake_body@
            &&& post.direction == dir
            &&& post.food_position == g.food_position
            &&& post.score == g.score
            &&& post.is_active == false
            &&& post.is_paused == g.is_paused
            &&& post.width == g.width
            &&& post.height == g.height
        } else if nh == g.food_position {
            let new_score = sat_add_spec(g.score, 10);
            &&& post.snake_body@ == g.snake_body@.insert(0, nh)
            &&& post.direction == dir
            &&& post.food_position == spawned_food_spec(
                new_score,
                g.snake_body@.len() + 1,
                g.width,
                g.height,
            )
            &&& post.score == new_score
            &&& post.is_active == g.is_active
            &&& post.is_paused == g.is_paused
            &&& post.width == g.width
            &&& post.height == g.height
        } else {
            &&& post.snake_body@ == g.snake_body@.insert(0, nh).drop_last()
            &&& post.direction == dir
            &&& post.food_position == g.food_position
            &&& post.score == g.score
            &&& post.is_active == g.is_active
            &&& post.is_paused == g.is_paused
            &&& post.width == g.width
            &&& post.height == g.height
        }
    }
}

/// How one `MoveSnake` step transforms the caller's recorded high score:
/// raised to the new score when food was eaten and the new score beats the
/// record, untouched otherwise.
pub open spec fn high_after_move(
    pre: JeteeahState,
    post: JeteeahState,
    player: u64,
    dir: Direction,
) -> bool
    recommends
        pre.games@.contains_key(player),
{
    let g = pre.games@[player];
    let new_score = sat_add_spec(g.score, 10);
    if move_eats(g, dir) && new_score > cur_high(pre, player) {
        post.high_scores@ == pre.high_scores@.insert(player, new_score)
    } else {
        post.high_scores@ == pre.high_scores@
    }
}

/// `MoveSnake`: one simulation step of the caller's game, plus its effect
/// on the high-score record; everything else is untouched.
pub open spec fn move_snake_rel(
    pre: JeteeahState,
    post: JeteeahState,
    player: u64,
    dir: Direction,
) -> bool
    recommends
        pre.games@.contains_key(player),
{
    &&& same_config(pre, post)
    &&& post.points@ == pre.points@
    &&& post.games@.contains_key(player)
    &&& game_after_move(pre.games@[player], dir, post.games@[player])
    &&& post.games@ == pre.games@.insert(player, post.games@[player])
    &&& high_after_move(pre, post, player, dir)
}

/// `EatFood` applies only to an active, unpaused game whose head already
/// sits on the food cell.
pub open spec fn eat_food_applies(g: GameState) -> bool {
    g.is_active && !g.is_paused && g.head_spec() == g.food_position
}

/// How `EatFood` transforms the caller's game: ten points (saturating) and
/// a redrawn food cell when it applies, untouched otherwise. The body does
/// not grow and the high score is not consulted.
pub open spec fn game_after_eat(g: GameState, post: GameState) -> bool {
    if eat_food_applies(g) {
        let new_score = sat_add_spec(g.score, 10);
        &&& post.snake_body@ == g.snake_body@
        &&& post.direction == g.direction
        &&& post.food_position == spawned_food_spec(
            new_score,
            g.snake_body@.len(),
            g.width,
            g.height,
        )
        &&& post.score == new_score
        &&& post.is_active == g.is_active
        &&& post.is_paused == g.is_paused
        &&& post.width == g.width
        &&& post.height == g.height
    } else {
        post == g
    }
}

/// `EatFood`: the idempotent out-of-band food re-check on the caller's
/// game; everything else is untouched.
pub open spec fn eat_food_rel(pre: JeteeahState, post: JeteeahState, player: u64) -> bool
    recommends
        pre.games@.contains_key(player),
{
    &&& same_config(pre, post)
    &&& post.points@ == pre.points@
    &&& post.high_scores@ == pre.high_scores@
    &&& post.games@.contains_key(player)
    &&& game_after_eat(pre.games@[player], post.games@[player])
    &&& post.games@ == pre.games@.insert(player, post.games@[player])
}

/// The game with its activity flag cleared and everything else untouched.
pub open spec fn game_deactivated(g: GameState, post: GameState) -> bool {
    &&& post.snake_body@ == g.snake_body@
    &&& post.direction == g.direction
    &&& post.food_position == g.food_position
    &&& post.score == g.score
    &&& post.is_active == false
    &&& post.is_paused == g.is_paused
    &&& post.width == g.width
    &&& post.height == g.height
}

/// `EndGame`: the caller's game deactivates and its current score is
/// credited (saturating) to the caller's points balance. The score field is
/// not cleared, so ending an already-inactive game credits the same score
/// again; callers that want once-only crediting must guard on the activity
/// flag.
pub open spec fn end_game_rel(pre: JeteeahState, post: JeteeahState, player: u64) -> bool
    recommends
        pre.games@.contains_key(player),
{
    &&& same_config(pre, post)
    &&& post.high_scores@ == pre.high_scores@
    &&& post.games@.contains_key(player)
    &&& game_deactivated(pre.games@[player], post.games@[player])
    &&& post.games@ == pre.games@.insert(player, post.games@[player])
    &&& post.points@ == pre.points@.insert(
        player,
        sat_add_spec(cur_points(pre, player), pre.games@[player].score),
    )
}

/// How `PauseGame` transforms the caller's game: the pause flag is raised
/// only while the game is active.
pub open spec fn game_after_pause(g: GameState, post: GameState) -> bool {
    if g.is_active {
        &&& post.snake_body@ == g.snake_body@
        &&& post.direction == g.direction
        &&& post.food_position == g.food_position
        &&& post.score == g.score
        &&& post.is_active == g.is_active
        &&& post.is_paused == true
        &&& post.width == g.width
        &&& post.height == g.height
    } else {
        post == g
    }
}

/// How `ResumeGame` transforms the caller's game: the pause flag is cleared
/// only while the game is active and paused.
pub open spec fn game_after_resume(g: GameState, post: GameState) -> bool {
    if g.is_active && g.is_paused {
        &&& post.snake_body@ == g.snake_body@
        &&& post.direction == g.direction
        &&& post.food_position == g.food_position
        &&& post.score == g.score
        &&& post.is_active == g.is_active
        &&& post.is_paused == false
        &&& post.width == g.width
        &&& post.height == g.height
    } else {
        post == g
    }
}

/// `PauseGame`: only the caller's pause flag can change.
pub open spec fn pause_game_rel(pre: JeteeahState, post: JeteeahState, player: u64) -> bool
    recommends
        pre.games@.contains_key(player),
{
    &&& same_config(pre, post)
    &&& post.points@ == pre.points@
    &&& post.high_scores@ == pre.high_scores@
    &&& post.games@.contains_key(player)
    &&& game_after_pause(pre.games@[player], post.games@[player])
    &&& post.games@ == pre.games@.insert(player, post.games@[player])
}

/// `ResumeGame`: only the caller's pause flag can change.
pub open spec fn resume_game_rel(pre: JeteeahState, post: JeteeahState, player: u64) -> bool
    recommends
        pre.games@.contains_key(player),
{
    &&& same_config(pre, post)
    &&& post.points@ == pre.points@
    &&& post.high_scores@ == pre.high_scores@
    &&& post.games@.contains_key(player)
    &&& game_after_resume(pre.games@[player], post.games@[player])
    &&& post.games@ == pre.games@.insert(player, post.games@[player])
}

/// `AddPoints`: an unconditional (saturating) credit of the caller's
/// balance; everything else is untouched.
pub open spec fn add_points_rel(
    pre: JeteeahState,
    post: JeteeahState,
    player: u64,
    amount: u64,
) -> bool {
    &&& same_config(pre, post)
    &&& post.games@ == pre.games@
    &&& post.high_scores@ == pre.high_scores@
    &&& post.points@ == pre.points@.insert(player, sat_add_spec(cur_points(pre, player), amount))
}

/// `RedeemPoints`: the balance decreases by `amount` iff `amount` is
/// covered by the balance at call time; otherwise a silent no-op.
pub open spec fn redeem_points_rel(
    pre: JeteeahState,
    post: JeteeahState,
    player: u64,
    amount: u64,
) -> bool {
    &&& same_config(pre, post)
    &&& post.games@ == pre.games@
    &&& post.high_scores@ == pre.high_scores@
    &&& if amount <= cur_points(pre, player) {
        post.points@ == pre.points@.insert(player, (cur_points(pre, player) - amount) as u64)
    } else {
        post.points@ == pre.points@
    }
}

/// `Increment`: the demo counter grows (saturating); everything else is
/// untouched.
pub open spec fn increment_rel(pre: JeteeahState, post: JeteeahState, value: u64) -> bool {
    &&& post.value == sat_add_spec(pre.value, value)
    &&& post.game_width == pre.game_width
    &&& post.game_height == pre.game_height
    &&& post.food_spawn_rate == pre.food_spawn_rate
    &&& post.games@ == pre.games@
    &&& post.high_scores@ == pre.high_scores@
    &&& post.points@ == pre.points@
}

/// `SetGameParameters`: the shared board dimensions change for games
/// created afterwards, never retroactively. Non-positive dimensions are
/// rejected as a silent no-op, so every future game has a usable board.
pub open spec fn set_game_parameters_rel(
    pre: JeteeahState,
    post: JeteeahState,
    width: i32,
    height: i32,
) -> bool {
    if 0 < width && 0 < height {
        &&& post.game_width == width
        &&& post.game_height == height
        &&& post.value == pre.value
        &&& post.food_spawn_rate == pre.food_spawn_rate
        &&& post.games@ == pre.games@
        &&& post.high_scores@ == pre.high_scores@
        &&& post.points@ == pre.points@
    } else {
        post == pre
    }
}

/// `UpdateFoodSpawnRate`: the stored rate changes; the placement formula
/// does not consult it.
pub open spec fn update_food_spawn_rate_rel(
    pre: JeteeahState,
    post: JeteeahState,
    rate: u64,
) -> bool {
    &&& post.food_spawn_rate == rate
    &&& post.value == pre.value
    &&& post.game_width == pre.game_width
    &&& post.game_height == pre.game_height
    &&& post.games@ == pre.games@
    &&& post.high_scores@ == pre.high_scores@
    &&& post.points@ == pre.points@
}

/// `ResetLeaderboard`: every player's high-score entry is cleared;
/// everything else is untouched.
pub open spec fn reset_leaderboard_rel(pre: JeteeahState, post: JeteeahState) -> bool {
    &&& same_config(pre, post)
    &&& post.games@ == pre.games@
    &&& post.points@ == pre.points@
    &&& post.high_scores@ == Map::<u64, u64>::empty()
}

/// Whether the operation carries an implicit caller identity.
pub open spec fn requires_caller(op: Operation) -> bool {
    match op {
        Operation::Increment { .. } => false,
        Operation::SetGameParameters { .. } => false,
        Operation::UpdateFoodSpawnRate { .. } => false,
        Operation::ResetLeaderboard => false,
        _ => true,
    }
}

/// Whether the operation's handler expects an existing game for the caller.
pub open spec fn needs_existing_game(op: Operation) -> bool {
    match op {
        Operation::MoveSnake { .. } => true,
        Operation::EatFood => true,
        Operation::EndGame => true,
        Operation::PauseGame => true,
        Operation::ResumeGame => true,
        _ => false,
    }
}

/// The fatal anomaly, if any, that makes the whole operation abort with
/// nothing committed: a required caller identity that was not resolved, or
/// a player-scoped operation whose caller has no game.
pub open spec fn fatal_error(s: JeteeahState, op: Operation, caller: Option<u64>) -> Option<
    OperationError,
> {
    match caller {
        None => if requires_caller(op) {
            Some(OperationError::NotAuthenticated)
        } else {
            None
        },
        Some(p) => if needs_existing_game(op) && !s.games@.contains_key(p) {
            Some(OperationError::GameNotFound)
        } else {
            None
        },
    }
}

/// The whole transition function: how a committed operation relates the
/// prior state to the new one, for each tag of the input alphabet.
pub open spec fn transition(
    pre: JeteeahState,
    post: JeteeahState,
    op: Operation,
    caller: Option<u64>,
) -> bool {
    match op {
        Operation::Increment { value } => increment_rel(pre, post, value),
        Operation::StartGame => caller matches Some(p) && start_game_rel(pre, post, p),
        Operation::MoveSnake { direction } => caller matches Some(p) && move_snake_rel(
            pre,
            post,
            p,
            direction,
        ),
        Operation::EatFood => caller matches Some(p) && eat_food_rel(pre, post, p),
        Operation::EndGame => caller matches Some(p) && end_game_rel(pre, post, p),
        Operation::ResetGame => caller matches Some(p) && start_game_rel(pre, post, p),
        Operation::AddPoints { amount } => caller matches Some(p) && add_points_rel(
            pre,
            post,
            p,
            amount,
        ),
        Operation::RedeemPoints { amount } => caller matches Some(p) && redeem_points_rel(
            pre,
            post,
            p,
            amount,
        ),
        Operation::SetGameParameters { width, height } => set_game_parameters_rel(
            pre,
            post,
            width,
            height,
        ),
        Operation::UpdateFoodSpawnRate { rate } => update_food_spawn_rate_rel(pre, post, rate),
        Operation::ResetLeaderboard => reset_leaderboard_rel(pre, post),
        Operation::PauseGame => caller matches Some(p) && pause_game_rel(pre, post, p),
        Operation::ResumeGame => caller matches Some(p) && resume_game_rel(pre, post, p),
    }
}

/// The application: its whole state, driven by one operation at a time.
pub struct JeteeahContract {
    pub state: JeteeahState,
}

impl JeteeahContract {
    /// Brings up the application over a fresh, empty store.
    pub fn load() -> (r: JeteeahContract)
        ensures
            r.state.value == 0,
            r.state.games@ == Map::<u64, crate::state::GameState>::empty(),
            r.state.high_scores@ == Map::<u64, u64>::empty(),
            r.state.points@ == Map::<u64, u64>::empty(),
            r.state.game_width == 0,
            r.state.game_height == 0,
            r.state.food_spawn_rate == 0,
    {
        JeteeahContract {
            state: JeteeahState {
                value: 0,
                games: HashMap::new(),
                high_scores: HashMap::new(),
                points: HashMap::new(),
                game_width: 0,
                game_height: 0,
                food_spawn_rate: 0,
            },
        }
    }

    /// One-time instantiation: stores the argument in the demo counter and
    /// sets the default board configuration (a 20 by 20 board, spawn rate 1).
    pub fn instantiate(&mut self, argument: u64)
        requires
            old(self).state.games_wf(),
        ensures
            final(self).state.wf(),
            final(self).state.value == argument,
            final(self).state.game_width == 20,
            final(self).state.game_height == 20,
            final(self).state.food_spawn_rate == 1,
            final(self).state.games@ == old(self).state.games@,
            final(self).state.high_scores@ == old(self).state.high_scores@,
            final(self).state.points@ == old(self).state.points@,
    {
        self.state.value = argument;
        self.state.game_width = 20;
        self.state.game_height = 20;
        self.state.food_spawn_rate = 1;
    }

    /// Creates a fresh game for `player`, overwriting any prior entry: three
    /// horizontally-adjacent segments centred on the board, head rightmost,
    /// direction `Right`, food five cells away diagonally (wrapped), score
    /// zero, active and not paused.
    pub fn start_game(&mut self, player: u64)
        requires
            old(self).state.wf(),
        ensures
            final(self).state.wf(),
            start_game_rel(old(self).state, final(self).state, player),
    {
        let width = self.state.game_width;
        let height = self.state.game_height;
        let center_x = width / 2;
        let center_y = height / 2;

        let mut initial_snake: Vec<Position> = Vec::new();
        initial_snake.push(Position { x: center_x, y: center_y });
        initial_snake.push(Position { x: center_x - 1, y: center_y });
        initial_snake.push(Position { x: center_x - 2, y: center_y });

        let food_position = Position { x: (center_x + 5) % width, y: (center_y + 5) % height };

        let game_state = GameState {
            snake_body: initial_snake,
            direction: Direction::Right,
            food_position,
            score: 0,
            is_active: true,
            is_paused: false,
            width,
            height,
        };
        assert(is_initial_game(game_state, width, height));
        assert(game_state.wf());

        self.state.games.insert(player, game_state);
    }

    /// One simulation step of the caller's game in `new_direction`. Silent
    /// no-op while the game is over or paused, or on a reversal attempt.
    /// A collision of the stepped head deactivates the game; landing on the
    /// food grows the snake, awards ten points and redraws the food;
    /// otherwise the snake translates by one cell. Fails, changing nothing,
    /// iff the caller has no game.
    pub fn move_snake(&mut self, player: u64, new_direction: Direction) -> (r: Result<
        (),
        OperationError,
    >)
        requires
            old(self).state.wf(),
        ensures
            final(self).state.wf(),
            match r {
                Ok(()) => old(self).state.games@.contains_key(player) && move_snake_rel(
                    old(self).state,
                    final(self).state,
                    player,
                    new_direction,
                ),
                Err(e) => e == OperationError::GameNotFound && !old(
                    self,
                ).state.games@.contains_key(player) && *final(self) == *old(self),
            },
    {
        if !self.state.games.contains_key(&player) {
            return Err(OperationError::GameNotFound);
        }
        let mut game = match self.state.games.remove(&player) {
            Some(g) => g,
            None => {
                proof {
                    assert(false);
                }
                return Err(OperationError::GameNotFound);
            },
        };
        let ghost pre = old(self).state;
        let ghost g0 = game;
        assert(g0 == pre.games@[player]);
        assert(g0.wf());

        if !game.is_active || game.is_paused {
            self.state.games.insert(player, game);
            proof {
                assert(self.state.games@ =~= pre.games@.insert(player, g0));
            }
            return Ok(());
        }

        let opposite = game.direction.opposite();
        if new_direction == opposite && game.snake_body.len() > 1 {
            self.state.games.insert(player, game);
            proof {
                assert(self.state.games@ =~= pre.games@.insert(player, g0));
            }
            return Ok(());
        }
        assert(!move_blocked(g0, new_direction));

        game.direction = new_direction;
        let head = game.snake_body[0];
        assert(g0.cell_in_range(head));
        let new_head = step_position(head, new_direction);

        if check_collision_internal(&game, &new_head) {
            game.is_active = false;
            self.state.games.insert(player, game);
            proof {
                assert(self.state.games@ =~= pre.games@.insert(
                    player,
                    self.state.games@[player],
                ));
            }
            return Ok(());
        }
        assert(!g0.collides_with(new_head));
        assert(g0.in_board(new_head));

        let ate_food = new_head.x == game.food_position.x && new_head.y == game.food_position.y;
        assert(ate_food == (new_head == g0.food_position));

        game.snake_body.insert(0, new_head);
        proof {
            g0.snake_body@.insert_ensures(0, new_head);
        }

        if !ate_food {
            game.snake_body.pop();
            proof {
                let b1 = g0.snake_body@.insert(0, new_head);
                assert(game.snake_body@ =~= b1.drop_last());
                assert forall|i: int, j: int|
                    0 <= i < j < game.snake_body@.len() implies game.snake_body@[i]
                    != game.snake_body@[j] by {
                    if i == 0 {
                        assert(game.snake_body@[j] == g0.snake_body@[j - 1]);
                        assert(!g0.hits_body(new_head));
                        assert(g0.snake_body@[j - 1] != new_head);
                    } else {
                        assert(game.snake_body@[i] == g0.snake_body@[i - 1]);
                        assert(game.snake_body@[j] == g0.snake_body@[j - 1]);
                    }
                }
                assert(distinct_cells(game.snake_body@));
                assert forall|i: int|
                    0 <= i < game.snake_body@.len() implies game.cell_in_range(
                    #[trigger] game.snake_body@[i],
                ) by {
                    if i > 0 {
                        assert(game.snake_body@[i] == g0.snake_body@[i - 1]);
                    }
                }
                assert(game.wf());
            }
        } else {
            game.score = sat_add(game.score, 10);
            game.food_position = spawn_food_internal(&game);
            proof {
                let b1 = g0.snake_body@.insert(0, new_head);
                assert(game.snake_body@ == b1);
                assert forall|i: int, j: int|
                    0 <= i < j < game.snake_body@.len() implies game.snake_body@[i]
                    != game.snake_body@[j] by {
                    if i == 0 {
                        assert(game.snake_body@[j] == g0.snake_body@[j - 1]);
                        assert(!g0.hits_body(new_head));
                        assert(g0.snake_body@[j - 1] != new_head);
                    } else {
                        assert(game.snake_body@[i] == g0.snake_body@[i - 1]);
                        assert(game.snake_body@[j] == g0.snake_body@[j - 1]);
                    }
                }
                assert(distinct_cells(game.snake_body@));
                assert forall|i: int|
                    0 <= i < game.snake_body@.len() implies game.cell_in_range(
                    #[trigger] game.snake_body@[i],
                ) by {
                    if i > 0 {
                        assert(game.snake_body@[i] == g0.snake_body@[i - 1]);
                    }
                }
                assert(game.wf());
            }

            let current_high = match self.state.high_scores.get(&player) {
                Some(v) => *v,
                None => 0,
            };
            assert(current_high == cur_high(pre, player));
            if game.score > current_high {
                self.state.high_scores.insert(player, game.score);
            }
        }

        self.state.games.insert(player, game);
        proof {
            assert(self.state.games@ =~= pre.games@.insert(player, self.state.games@[player]));
            assert(game_after_move(g0, new_direction, self.state.games@[player]));
        }
        Ok(())
    }

    /// Idempotent out-of-band food re-check: if the caller's game is active,
    /// unpaused, and its head already sits on the food cell, ten points are
    /// awarded and the food is redrawn; otherwise a silent no-op. Fails,
    /// changing nothing, iff the caller has no game.
    pub fn eat_food(&mut self, player: u64) -> (r: Result<(), OperationError>)
        requires
            old(self).state.wf(),
        ensures
            final(self).state.wf(),
            match r {
                Ok(()) => old(self).state.games@.contains_key(player) && eat_food_rel(
                    old(self).state,
                    final(self).state,
                    player,
                ),
                Err(e) => e == OperationError::GameNotFound && !old(
                    self,
                ).state.games@.contains_key(player) && *final(self) == *old(self),
            },
    {
        if !self.state.games.contains_key(&player) {
            return Err(OperationError::GameNotFound);
        }
        let mut game = match self.state.games.remove(&player) {
            Some(g) => g,
            None => {
                proof {
                    assert(false);
                }
                return Err(OperationError::GameNotFound);
            },
        };
        let ghost pre = old(self).state;
        let ghost g0 = game;
        assert(g0 == pre.games@[player]);
        assert(g0.wf());

        if game.is_active && !game.is_paused {
            let head = game.snake_body[0];
            if head.x == game.food_position.x && head.y == game.food_position.y {
                assert(eat_food_applies(g0));
                game.score = sat_add(game.score, 10);
                game.food_position = spawn_food_internal(&game);
            } else {
                assert(!eat_food_applies(g0));
            }
        }
        self.state.games.insert(player, game);
        proof {
            assert(self.state.games@ =~= pre.games@.insert(player, self.state.games@[player]));
            assert(game_after_eat(g0, self.state.games@[player]));
        }
        Ok(())
    }

    /// Deactivates the caller's game and credits its current score
    /// (saturating) to the caller's points balance. The score field is not
    /// cleared. Fails, changing nothing, iff the caller has no game.
    pub fn end_game(&mut self, player: u64) -> (r: Result<(), OperationError>)
        requires
            old(self).state.wf(),
        ensures
            final(self).state.wf(),
            match r {
                Ok(()) => old(self).state.games@.contains_key(player) && end_game_rel(
                    old(self).state,
                    final(self).state,
                    player,
                ),
                Err(e) => e == OperationError::GameNotFound && !old(
                    self,
                ).state.games@.contains_key(player) && *final(self) == *old(self),
            },
    {
        if !self.state.games.contains_key(&player) {
            return Err(OperationError::GameNotFound);
        }
        let mut game = match self.state.games.remove(&player) {
            Some(g) => g,
            None => {
                proof {
                    assert(false);
                }
                return Err(OperationError::GameNotFound);
            },
        };
        let ghost pre = old(self).state;
        let ghost g0 = game;
        assert(g0 == pre.games@[player]);

        game.is_active = false;

        let current_points = match self.state.points.get(&player) {
            Some(v) => *v,
            None => 0,
        };
        assert(current_points == cur_points(pre, player));
        let total = sat_add(current_points, game.score);
        self.state.points.insert(player, total);
        self.state.games.insert(player, game);
        proof {
            assert(self.state.games@ =~= pre.games@.insert(player, self.state.games@[player]));
            assert(game_deactivated(g0, self.state.games@[player]));
        }
        Ok(())
    }

    /// Deletes the caller's game and immediately recreates a fresh one on
    /// the current shared board configuration, as `StartGame` would.
    pub fn reset_game(&mut self, player: u64)
        requires
            old(self).state.wf(),
        ensures
            final(self).state.wf(),
            start_game_rel(old(self).state, final(self).state, player),
    {
        let ghost pre = old(self).state;
        self.state.games.remove(&player);
        self.start_game(player);
        proof {
            assert(self.state.games@ =~= pre.games@.insert(player, self.state.games@[player]));
        }
    }

    /// Unconditionally credits `amount` (saturating) to the caller's points
    /// balance, creating it at zero first if absent.
    pub fn add_points(&mut self, player: u64, amount: u64)
        requires
            old(self).state.wf(),
        ensures
            final(self).state.wf(),
            add_points_rel(old(self).state, final(self).state, player, amount),
    {
        let current_points = match self.state.points.get(&player) {
            Some(v) => *v,
            None => 0,
        };
        let total = sat_add(current_points, amount);
        self.state.points.insert(player, total);
    }

    /// Debits `amount` from the caller's points balance if the balance
    /// covers it; otherwise a silent no-op.
    pub fn redeem_points(&mut self, player: u64, amount: u64)
        requires
            old(self).state.wf(),
        ensures
            final(self).state.wf(),
            redeem_points_rel(old(self).state, final(self).state, player, amount),
    {
        let current_points = match self.state.points.get(&player) {
            Some(v) => *v,
            None => 0,
        };
        if current_points >= amount {
            self.state.points.insert(player, current_points - amount);
        }
    }

    /// Mutates the shared board dimensions for games created afterwards.
    /// Non-positive dimensions are rejected as a silent no-op.
    pub fn set_game_parameters(&mut self, width: i32, height: i32)
        requires
            old(self).state.wf(),
        ensures
            final(self).state.wf(),
            set_game_parameters_rel(old(self).state, final(self).state, width, height),
    {
        if width > 0 && height > 0 {
            self.state.game_width = width;
            self.state.game_height = height;
        }
    }

    /// Stores a new food spawn rate; the placement formula does not consult
    /// it.
    pub fn update_food_spawn_rate(&mut self, rate: u64)
        requires
            old(self).state.wf(),
        ensures
            final(self).state.wf(),
            update_food_spawn_rate_rel(old(self).state, final(self).state, rate),
    {
        self.state.food_spawn_rate = rate;
    }

    /// Clears every player's high-score entry.
    pub fn reset_leaderboard(&mut self)
        requires
            old(self).state.wf(),
        ensures
            final(self).state.wf(),
            reset_leaderboard_rel(old(self).state, final(self).state),
    {
        self.state.high_scores.clear();
    }

    /// Raises the caller's pause flag if the game is active; otherwise a
    /// silent no-op. Fails, changing nothing, iff the caller has no game.
    pub fn pause_game(&mut self, player: u64) -> (r: Result<(), OperationError>)
        requires
            old(self).state.wf(),
        ensures
            final(self).state.wf(),
            match r {
                Ok(()) => old(self).state.games@.contains_key(player) && pause_game_rel(
                    old(self).state,
                    final(self).state,
                    player,
                ),
                Err(e) => e == OperationError::GameNotFound && !old(
                    self,
                ).state.games@.contains_key(player) && *final(self) == *old(self),
            },
    {
        if !self.state.games.contains_key(&player) {
            return Err(OperationError::GameNotFound);
        }
        let mut game = match self.state.games.remove(&player) {
            Some(g) => g,
            None => {
                proof {
                    assert(false);
                }
                return Err(OperationError::GameNotFound);
            },
        };
        let ghost pre = old(self).state;
        let ghost g0 = game;
        assert(g0 == pre.games@[player]);

        if game.is_active {
            game.is_paused = true;
        }
        self.state.games.insert(player, game);
        proof {
            assert(self.state.games@ =~= pre.games@.insert(player, self.state.games@[player]));
            assert(game_after_pause(g0, self.state.games@[player]));
        }
        Ok(())
    }

    /// Clears the caller's pause flag if the game is active and paused;
    /// otherwise a silent no-op. Fails, changing nothing, iff the caller
    /// has no game.
    pub fn resume_game(&mut self, player: u64) -> (r: Result<(), OperationError>)
        requires
            old(self).state.wf(),
        ensures
            final(self).state.wf(),
            match r {
                Ok(()) => old(self).state.games@.contains_key(player) && resume_game_rel(
                    old(self).state,
                    final(self).state,
                    player,
                ),
                Err(e) => e == OperationError::GameNotFound && !old(
                    self,
                ).state.games@.contains_key(player) && *final(self) == *old(self),
            },
    {
        if !self.state.games.contains_key(&player) {
            return Err(OperationError::GameNotFound);
        }
        let mut game = match self.state.games.remove(&player) {
            Some(g) => g,
            None => {
                proof {
                    assert(false);
                }
                return Err(OperationError::GameNotFound);
            },
        };
        let ghost pre = old(self).state;
        let ghost g0 = game;
        assert(g0 == pre.games@[player]);

        if game.is_active && game.is_paused {
            game.is_paused = false;
        }
        self.state.games.insert(player, game);
        proof {
            assert(self.state.games@ =~= pre.games@.insert(player, self.state.games@[player]));
            assert(game_after_resume(g0, self.state.games@[player]));
        }
        Ok(())
    }

    /// Reads the caller's game, if any (helper for the query surface).
    pub fn get_game_state(&self, player: u64) -> (r: Option<&GameState>)
        ensures
            match r {
                Some(g) => self.state.games@.contains_key(player) && *g
                    == self.state.games@[player],
                None => !self.state.games@.contains_key(player),
            },
    {
        self.state.games.get(&player)
    }

    /// Reads the caller's recorded high score, zero if none was recorded.
    pub fn get_high_score(&self, player: u64) -> (r: u64)
        ensures
            r == cur_high(self.state, player),
    {
        match self.state.high_scores.get(&player) {
            Some(v) => *v,
            None => 0,
        }
    }

    /// Routes one operation, with the caller identity the host resolved, to
    /// its handler. Either the whole transition commits, or a fatal anomaly
    /// is reported and nothing changes.
    pub fn execute_operation(&mut self, operation: Operation, caller: Option<u64>) -> (r: Result<
        (),
        OperationError,
    >)
        requires
            old(self).state.wf(),
        ensures
            final(self).state.wf(),
            match r {
                Ok(()) => fatal_error(old(self).state, operation, caller) is None && transition(
                    old(self).state,
                    final(self).state,
                    operation,
                    caller,
                ),
                Err(e) => Some(e) == fatal_error(old(self).state, operation, caller) && *final(self)
                    == *old(self),
            },
    {
        match operation {
            Operation::Increment { value } => {
                self.state.value = sat_add(self.state.value, value);
                Ok(())
            },
            Operation::StartGame => {
                match caller {
                    Some(p) => {
                        self.start_game(p);
                        Ok(())
                    },
                    None => Err(OperationError::NotAuthenticated),
                }
            },
            Operation::MoveSnake { direction } => {
                match caller {
                    Some(p) => self.move_snake(p, direction),
                    None => Err(OperationError::NotAuthenticated),
                }
            },
            Operation::EatFood => {
                match caller {
                    Some(p) => self.eat_food(p),
                    None => Err(OperationError::NotAuthenticated),
                }
            },
            Operation::EndGame => {
                match caller {
                    Some(p) => self.end_game(p),
                    None => Err(OperationError::NotAuthenticated),
                }
            },
            Operation::ResetGame => {
                match caller {
                    Some(p) => {
                        self.reset_game(p);
                        Ok(())
                    },
                    None => Err(OperationError::NotAuthenticated),
                }
            },
            Operation::AddPoints { amount } => {
                match caller {
                    Some(p) => {
                        self.add_points(p, amount);
                        Ok(())
                    },
                    None => Err(OperationError::NotAuthenticated),
                }
            },
            Operation::RedeemPoints { amount } => {
                match caller {
                    Some(p) => {
                        self.redeem_points(p, amount);
                        Ok(())
                    },
                    None => Err(OperationError::NotAuthenticated),
                }
            },
            Operation::SetGameParameters { width, height } => {
                self.set_game_parameters(width, height);
                Ok(())
            },
            Operation::UpdateFoodSpawnRate { rate } => {
                self.update_food_spawn_rate(rate);
                Ok(())
            },
            Operation::ResetLeaderboard => {
                self.reset_leaderboard();
                Ok(())
            },
            Operation::PauseGame => {
                match caller {
                    Some(p) => self.pause_game(p),
                    None => Err(OperationError::NotAuthenticated),
                }
            },
            Operation::ResumeGame => {
                match caller {
                    Some(p) => self.resume_game(p),
                    None => Err(OperationError::NotAuthenticated),
                }
            },
        }
    }

    /// Cross-application messages are not part of this application's
    /// surface: receiving one changes nothing.
    pub fn execute_message(&mut self, _message: ())
        ensures
            *final(self) == *old(self),
    {
    }

    /// Reads the caller's points balance, zero if none was recorded.
    pub fn get_points(&self, player: u64) -> (r: u64)
        ensures
            r == cur_points(self.state, player),
    {
        match self.state.points.get(&player) {
            Some(v) => *v,
            None => 0,
        }
    }
}

/// For every unblocked `MoveSnake` step, the body length is unchanged,
/// except that eating the food grows it by exactly one.
pub proof fn lemma_move_preserves_length(g: GameState, dir: Direction, post: GameState)
    requires
        g.wf(),
        !move_blocked(g, dir),
        game_after_move(g, dir, post),
    ensures
        post.snake_body@.len() == if move_eats(g, dir) {
            g.snake_body@.len() + 1
        } else {
            g.snake_body@.len()
        },
{
    g.snake_body@.insert_ensures(0, stepped_spec(g.head_spec(), dir));
}

/// The head after a successful (non-blocked, non-colliding) move is exactly
/// one cell away from the prior head, in the requested direction.
pub proof fn lemma_move_head_offset(g: GameState, dir: Direction, post: GameState)
    requires
        g.wf(),
        !move_blocked(g, dir),
        !g.collides_with(stepped_spec(g.head_spec(), dir)),
        game_after_move(g, dir, post),
    ensures
        post.head_spec() == stepped_spec(g.head_spec(), dir),
{
    g.snake_body@.insert_ensures(0, stepped_spec(g.head_spec(), dir));
}

/// A reversal attempt (the direction opposite to the current one, with more
/// than one segment) on a running game changes neither the direction nor
/// any position: the game is untouched.
pub proof fn lemma_reversal_is_noop(g: GameState, dir: Direction, post: GameState)
    requires
        dir == g.direction.opposite_spec(),
        g.snake_body@.len() > 1,
        game_after_move(g, dir, post),
    ensures
        post == g,
{
}

/// A move whose stepped head leaves the board deactivates the game and
/// leaves the score and the body untouched by that call.
pub proof fn lemma_wall_move_deactivates(g: GameState, dir: Direction, post: GameState)
    requires
        g.wf(),
        !move_blocked(g, dir),
        !g.in_board(stepped_spec(g.head_spec(), dir)),
        game_after_move(g, dir, post),
    ensures
        post.is_active == false,
        post.score == g.score,
        post.snake_body@ == g.snake_body@,
{
}

/// While a game persists across a committed operation (any tag but
/// `StartGame` and `ResetGame`, which replace the caller's game with a
/// fresh one), no player's score decreases.
pub proof fn lemma_score_monotone(
    pre: JeteeahState,
    post: JeteeahState,
    op: Operation,
    caller: Option<u64>,
    player: u64,
)
    requires
        pre.wf(),
        transition(pre, post, op, caller),
        !(op matches Operation::StartGame),
        !(op matches Operation::ResetGame),
        pre.games@.contains_key(player),
    ensures
        post.games@.contains_key(player),
        post.games@[player].score >= pre.games@[player].score,
{
}

/// Across every committed operation except `ResetLeaderboard`, no player's
/// recorded high score decreases.
pub proof fn lemma_high_score_monotone(
    pre: JeteeahState,
    post: JeteeahState,
    op: Operation,
    caller: Option<u64>,
    player: u64,
)
    requires
        pre.wf(),
        transition(pre, post, op, caller),
        !(op matches Operation::ResetLeaderboard),
    ensures
        cur_high(post, player) >= cur_high(pre, player),
{
}

/// A move that eats the food leaves the caller's recorded high score at
/// exactly the maximum of the prior record and the new score; every other
/// move leaves the record untouched.
pub proof fn lemma_high_score_is_running_max(
    pre: JeteeahState,
    post: JeteeahState,
    player: u64,
    dir: Direction,
)
    requires
        pre.wf(),
        pre.games@.contains_key(player),
        move_snake_rel(pre, post, player, dir),
    ensures
        cur_high(post, player) == if move_eats(pre.games@[player], dir) && post.games@[player].score
            > cur_high(pre, player) {
            post.games@[player].score
        } else {
            cur_high(pre, player)
        },
{
}

/// Reading a points balance is a pure function of the ledger: two reads
/// with no mutation of the ledger in between return equal values.
pub proof fn lemma_points_read_stable(s1: JeteeahState, s2: JeteeahState, player: u64)
    requires
        s1.points@ == s2.points@,
    ensures
        cur_points(s1, player) == cur_points(s2, player),
{
}

} // verus!
