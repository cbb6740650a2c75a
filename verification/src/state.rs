//! Data model of the snake game: board cells, directions, per-player game
//! state, the points ledger and high-score maps, and the spec-level
//! transition vocabulary (collision, food spawning, well-formedness).

use std::collections::HashMap;
use vstd::prelude::*;

verus! {

broadcast use vstd::std_specs::hash::group_hash_axioms;

/// A board cell. A cell is on the board iff `0 <= x < width` and
/// `0 <= y < height` for the owning game's board.
#[derive(Clone, Copy, Debug, PartialEq, Eq, Structural)]
pub struct Position {
    pub x: i32,
    pub y: i32,
}

/// A direction of travel for the snake's head.
#[derive(Clone, Copy, Debug, PartialEq, Eq, Structural)]
pub enum Direction {
    Up,
    Down,
    Left,
    Right,
}

impl Direction {
    /// The direction exactly opposite to `self`.
    pub open spec fn opposite_spec(self) -> Direction {
        match self {
            Direction::Up => Direction::Down,
            Direction::Down => Direction::Up,
            Direction::Left => Direction::Right,
            Direction::Right => Direction::Left,
        }
    }

    /// Computes the opposite direction.
    pub fn opposite(self) -> (r: Direction)
        ensures
            r == self.opposite_spec(),
    {
        match self {
            Direction::Up => Direction::Down,
            Direction::Down => Direction::Up,
            Direction::Left => Direction::Right,
            Direction::Right => Direction::Left,
        }
    }
}

/// The cell one step away from `p` in direction `d`.
/// Meaningful when the neighbouring coordinates stay within `i32`.
pub open spec fn stepped_spec(p: Position, d: Direction) -> Position {
    match d {
        Direction::Up => Position { x: p.x, y: (p.y - 1) as i32 },
        Direction::Down => Position { x: p.x, y: (p.y + 1) as i32 },
        Direction::Left => Position { x: (p.x - 1) as i32, y: p.y },
        Direction::Right => Position { x: (p.x + 1) as i32, y: p.y },
    }
}

/// Computes the cell one step away from `p` in direction `d`.
pub fn step_position(p: Position, d: Direction) -> (r: Position)
    requires
        i32::MIN < p.x < i32::MAX,
        i32::MIN < p.y < i32::MAX,
    ensures
        r == stepped_spec(p, d),
{
    match d {
        Direction::Up => Position { x: p.x, y: p.y - 1 },
        Direction::Down => Position { x: p.x, y: p.y + 1 },
        Direction::Left => Position { x: p.x - 1, y: p.y },
        Direction::Right => Position { x: p.x + 1, y: p.y },
    }
}

/// No two cells of the sequence coincide.
pub open spec fn distinct_cells(s: Seq<Position>) -> bool {
    forall|i: int, j: int| 0 <= i < j < s.len() ==> s[i] != s[j]
}

/// One player's game: the snake (head first), its direction, the food cell,
/// the score, the activity and pause flags, and the board dimensions that
/// were snapshotted from the shared configuration when the game was created.
#[derive(Clone, Debug)]
pub struct GameState {
    pub snake_body: Vec<Position>,
    pub direction: Direction,
    pub food_position: Position,
    pub score: u64,
    pub is_active: bool,
    pub is_paused: bool,
    pub width: i32,
    pub height: i32,
}

impl GameState {
    /// The snake's head cell.
    pub open spec fn head_spec(self) -> Position {
        self.snake_body@[0]
    }

    /// `p` lies on this game's board.
    pub open spec fn in_board(self, p: Position) -> bool {
        0 <= p.x < self.width && 0 <= p.y < self.height
    }

    /// `p` coincides with some cell of the snake's body.
    pub open spec fn hits_body(self, p: Position) -> bool {
        exists|i: int| 0 <= i < self.snake_body@.len() && self.snake_body@[i] == p
    }

    /// Moving the head to `p` is a collision: `p` is off the board (wall)
    /// or on the snake's body (self).
    pub open spec fn collides_with(self, p: Position) -> bool {
        !self.in_board(p) || self.hits_body(p)
    }

    /// Every body cell stays in this range: on the board, except that the
    /// two initial tail cells of a freshly created game on a very narrow
    /// board may start up to two columns left of it.
    pub open spec fn cell_in_range(self, p: Position) -> bool {
        -2 <= p.x < self.width && 0 <= p.y < self.height
    }

    /// Well-formedness: positive board, at least the three creation-time
    /// segments, all body cells in range, food on the board, and no
    /// self-overlap while the game is active.
    pub open spec fn wf(self) -> bool {
        &&& 0 < self.width
        &&& 0 < self.height
        &&& 3 <= self.snake_body@.len()
        &&& forall|i: int|
            0 <= i < self.snake_body@.len() ==> self.cell_in_range(#[trigger] self.snake_body@[i])
        &&& self.in_board(self.food_position)
        &&& self.is_active ==> distinct_cells(self.snake_body@)
    }
}

/// Saturating 64-bit addition: the ledger, the score, and the demo counter
/// stick at `u64::MAX` instead of wrapping or failing.
pub open spec fn sat_add_spec(a: u64, b: u64) -> u64 {
    if a + b <= u64::MAX {
        (a + b) as u64
    } else {
        u64::MAX
    }
}

/// Computes `sat_add_spec`.
pub fn sat_add(a: u64, b: u64) -> (r: u64)
    ensures
        r == sat_add_spec(a, b),
{
    if a <= u64::MAX - b {
        a + b
    } else {
        u64::MAX
    }
}

/// `n` reduced into the 64-bit range, as wrapping arithmetic would leave it.
pub open spec fn wrap64(n: int) -> u64 {
    (n % 0x1_0000_0000_0000_0000) as u64
}

/// The deterministic food-placement formula, computed in wrapping 64-bit
/// arithmetic from the seed `score + len(snake_body)`:
/// `x = (seed*7 + 13) mod width`, `y = (seed*11 + 17) mod height`.
pub open spec fn spawned_food_spec(score: u64, body_len: nat, width: i32, height: i32) -> Position
    recommends
        0 < width,
        0 < height,
{
    let seed = wrap64(score + body_len);
    let x = wrap64(seed * 7 + 13) as int % (width as int);
    let y = wrap64(seed * 11 + 17) as int % (height as int);
    Position { x: x as i32, y: y as i32 }
}

/// A freshly created game on a `width` by `height` board: three horizontal
/// segments centred on the board with the head rightmost, direction `Right`,
/// food offset diagonally by five cells (wrapped), score zero, active and
/// not paused.
pub open spec fn is_initial_game(g: GameState, width: i32, height: i32) -> bool {
    let cx = width as int / 2;
    let cy = height as int / 2;
    &&& g.snake_body@.len() == 3
    &&& g.snake_body@[0] == (Position { x: cx as i32, y: cy as i32 })
    &&& g.snake_body@[1] == (Position { x: (cx - 1) as i32, y: cy as i32 })
    &&& g.snake_body@[2] == (Position { x: (cx - 2) as i32, y: cy as i32 })
    &&& g.direction == Direction::Right
    &&& g.food_position == (Position {
        x: ((cx + 5) % (width as int)) as i32,
        y: ((cy + 5) % (height as int)) as i32,
    })
    &&& g.score == 0
    &&& g.is_active == true
    &&& g.is_paused == false
    &&& g.width == width
    &&& g.height == height
}

/// A named entry of the high-score surface: a player and their best score.
#[derive(Clone, Debug)]
pub struct LeaderboardEntry {
    pub player: String,
    pub score: u64,
}

/// The whole application state: the demo counter, the three player-keyed
/// maps, and the shared board configuration. Players are identified by an
/// opaque, already-authenticated numeric identity.
pub struct JeteeahState {
    pub value: u64,
    pub games: HashMap<u64, GameState>,
    pub high_scores: HashMap<u64, u64>,
    pub points: HashMap<u64, u64>,
    pub game_width: i32,
    pub game_height: i32,
    pub food_spawn_rate: u64,
}

impl JeteeahState {
    /// Every stored game is well-formed.
    pub open spec fn games_wf(self) -> bool {
        forall|p: u64| self.games@.contains_key(p) ==> (#[trigger] self.games@[p]).wf()
    }

    /// Well-formedness of the whole state: a positive shared board
    /// configuration and well-formed stored games.
    pub open spec fn wf(self) -> bool {
        &&& 0 < self.game_width
        &&& 0 < self.game_height
        &&& self.games_wf()
    }
}

} // verus!
