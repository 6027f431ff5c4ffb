//! The game state and the per-frame update rules.

use vstd::prelude::*;

use crate::food::place_food;

verus! {

/// A cell of the grid. `x` grows to the right, `y` grows downwards.
#[derive(Clone, Copy, PartialEq, Eq, Structural, Debug)]
pub struct Position {
    pub x: i32,
    pub y: i32,
}

/// The four directions the snake can travel in.
#[derive(Clone, Copy, PartialEq, Eq, Structural, Debug)]
pub enum Direction {
    Up,
    Down,
    Left,
    Right,
}

/// One sampled input event: at most one of these is read per frame.
#[derive(Clone, Copy, PartialEq, Eq, Structural, Debug)]
pub enum GameInput {
    /// A directional key.
    Turn(Direction),
    /// The quit key.
    Quit,
    /// Any other key, or no key at all.
    Other,
}

/// Whether the game goes on after a frame.
#[derive(Clone, Copy, PartialEq, Eq, Structural, Debug)]
pub enum Status {
    Running,
    Terminated,
}

/// The direction opposite to `d`.
pub open spec fn opposite(d: Direction) -> Direction {
    match d {
        Direction::Up => Direction::Down,
        Direction::Down => Direction::Up,
        Direction::Left => Direction::Right,
        Direction::Right => Direction::Left,
    }
}

/// A cell strictly inside the border: the playable interior.
pub open spec fn in_interior(p: Position, width: int, height: int) -> bool {
    0 < p.x < width - 1 && 0 < p.y < height - 1
}

/// The position one cell away from `p` in direction `d`.
pub open spec fn offset_pos(p: Position, d: Direction) -> Position {
    match d {
        Direction::Up => (Position { x: p.x, y: (p.y - 1) as i32 }),
        Direction::Down => (Position { x: p.x, y: (p.y + 1) as i32 }),
        Direction::Left => (Position { x: (p.x - 1) as i32, y: p.y }),
        Direction::Right => (Position { x: (p.x + 1) as i32, y: p.y }),
    }
}

/// The direction the snake travels in after one input event: a directional
/// input takes effect unless it would reverse the current course, in which
/// case it is dropped; any other input leaves the course unchanged.
pub open spec fn steer_spec(dir: Direction, input: GameInput) -> Direction {
    match input {
        GameInput::Turn(d) => if d == opposite(dir) {
            dir
        } else {
            d
        },
        _ => dir,
    }
}

/// The body `s` covers every cell of the playable interior.
pub open spec fn covers_interior(s: Seq<Position>, width: int, height: int) -> bool {
    forall|p: Position| in_interior(p, width, height) ==> #[trigger] s.contains(p)
}

/// One directional input can never reverse the snake onto itself: whatever
/// the input, the new course is not the opposite of the old one.
pub proof fn lemma_steer_never_reverses(dir: Direction, input: GameInput)
    ensures
        steer_spec(dir, input) != opposite(dir),
{
}

/// Applies one input event to the current direction.
pub fn steer(dir: Direction, input: GameInput) -> (d2: Direction)
    ensures
        d2 == steer_spec(dir, input),
        d2 != opposite(dir),
{
    match input {
        GameInput::Turn(d) => {
            let rejected = match dir {
                Direction::Up => matches!(d, Direction::Down),
                Direction::Down => matches!(d, Direction::Up),
                Direction::Left => matches!(d, Direction::Right),
                Direction::Right => matches!(d, Direction::Left),
            };
            if rejected {
                dir
            } else {
                d
            }
        },
        _ => dir,
    }
}

/// The head position a move in direction `d` would reach.
pub fn next_head(p: Position, d: Direction) -> (q: Position)
    requires
        i32::MIN < p.x < i32::MAX,
        i32::MIN < p.y < i32::MAX,
    ensures
        q == offset_pos(p, d),
{
    match d {
        Direction::Up => Position { x: p.x, y: p.y - 1 },
        Direction::Down => Position { x: p.x, y: p.y + 1 },
        Direction::Left => Position { x: p.x - 1, y: p.y },
        Direction::Right => Position { x: p.x + 1, y: p.y },
    }
}

/// The whole state of one game.
///
/// `snake` holds the body head first; the segment behind the head follows it,
/// and so on down to the tail at the back.
pub struct GameState {
    /// Grid width, border columns included.
    pub width: i32,
    /// Grid height, border rows included.
    pub height: i32,
    /// The body, head first.
    pub snake: Vec<Position>,
    /// The course the snake is on.
    pub dir: Direction,
    /// The cell the food sits on.
    pub food: Position,
    /// Food items eaten so far.
    pub score: usize,
}

impl GameState {
    /// The snake's head.
    pub open spec fn head(self) -> Position {
        self.snake@[0]
    }

    /// Well-formedness, established at start and kept by every frame:
    /// the grid can hold a border and an interior; the body is non-empty,
    /// made of distinct interior cells; the score counts exactly the food
    /// eaten since the start, which is the body's growth; and the food sits
    /// on an interior cell off the body — off-body only as long as the body
    /// has not swallowed the whole interior, since a full board leaves no
    /// cell for the food.
    pub open spec fn wf(self) -> bool {
        &&& self.width >= 3
        &&& self.height >= 3
        &&& self.snake@.len() >= 1
        &&& forall|i: int|
            0 <= i < self.snake@.len() ==> in_interior(
                #[trigger] self.snake@[i],
                self.width as int,
                self.height as int,
            )
        &&& self.snake@.no_duplicates()
        &&& self.score == self.snake@.len() - 1
        &&& in_interior(self.food, self.width as int, self.height as int)
        &&& !covers_interior(self.snake@, self.width as int, self.height as int)
            ==> !self.snake@.contains(self.food)
    }
}

/// Whether `p` is one of the snake's segments.
pub fn snake_contains(body: &Vec<Position>, p: Position) -> (r: bool)
    ensures
        r == body@.contains(p),
{
    let mut i: usize = 0;
    while i < body.len()
        invariant
            0 <= i <= body@.len(),
            forall|j: int| 0 <= j < i ==> body@[j] != p,
        decreases body@.len() - i,
    {
        if body[i] == p {
            return true;
        }
        i = i + 1;
    }
    false
}

/// The board did not change between two states: same body, food and score.
pub open spec fn board_unchanged(pre: GameState, post: GameState) -> bool {
    post.snake@ == pre.snake@ && post.food == pre.food && post.score == pre.score
}

/// The frame on input `input` commits a move: the input is not a quit, and
/// the candidate head lands on a free interior cell.
pub open spec fn frame_moves(pre: GameState, input: GameInput) -> bool {
    let cand = offset_pos(pre.head(), steer_spec(pre.dir, input));
    &&& input != GameInput::Quit
    &&& in_interior(cand, pre.width as int, pre.height as int)
    &&& !pre.snake@.contains(cand)
}

/// The frame commits a move whose new head lands on the food.
pub open spec fn frame_eats(pre: GameState, input: GameInput) -> bool {
    frame_moves(pre, input) && offset_pos(pre.head(), steer_spec(pre.dir, input)) == pre.food
}

/// How one frame takes the state `pre` to `post` with outcome `status` on
/// the input `input`. This is the whole per-frame rule:
/// - a quit ends the game at once, with nothing touched;
/// - otherwise the course is steered first, and the candidate head is one
///   cell onward on the new course;
/// - a candidate head on or beyond the border, or on the body, ends the game
///   with the board exactly as it was;
/// - a move onto the food keeps the tail and scores a point, and fresh food
///   is placed on a free interior cell — unless the grown body covers the
///   whole interior, which ends the game with the food left where it was;
/// - any other move puts the head on and takes the tail off.
pub open spec fn frame_rel(
    pre: GameState,
    input: GameInput,
    post: GameState,
    status: Status,
) -> bool {
    let d2 = steer_spec(pre.dir, input);
    let cand = offset_pos(pre.head(), d2);
    let w = pre.width as int;
    let h = pre.height as int;
    &&& post.width == pre.width
    &&& post.height == pre.height
    &&& if input == GameInput::Quit {
        status == Status::Terminated && post == pre
    } else if !in_interior(cand, w, h) {
        status == Status::Terminated && board_unchanged(pre, post) && post.dir == d2
    } else if pre.snake@.contains(cand) {
        status == Status::Terminated && board_unchanged(pre, post) && post.dir == d2
    } else if cand == pre.food {
        &&& post.dir == d2
        &&& post.snake@ == seq![cand] + pre.snake@
        &&& post.score == pre.score + 1
        &&& (status == Status::Running <==> !covers_interior(post.snake@, w, h))
        &&& status == Status::Running ==> in_interior(post.food, w, h) && !post.snake@.contains(
            post.food,
        )
        &&& status == Status::Terminated ==> post.food == pre.food
    } else {
        &&& status == Status::Running
        &&& post.dir == d2
        &&& post.snake@ == seq![cand] + pre.snake@.drop_last()
        &&& post.score == pre.score
        &&& post.food == pre.food
    }
}

/// A fresh game: a one-segment snake centred on the grid, heading right, a
/// zero score, and one food item placed on a free interior cell (on the
/// starting cell itself only when the interior has no other cell).
pub fn new_game(width: i32, height: i32) -> (g: GameState)
    requires
        width >= 3,
        height >= 3,
    ensures
        g.wf(),
        g.width == width,
        g.height == height,
        g.snake@ == seq![(Position { x: (width / 2) as i32, y: (height / 2) as i32 })],
        g.dir == Direction::Right,
        g.score == 0,
{
    let start = Position { x: width / 2, y: height / 2 };
    let mut body: Vec<Position> = Vec::new();
    body.push(start);
    let food = match place_food(&body, width, height) {
        Some(p) => p,
        None => start,
    };
    let g = GameState { width, height, snake: body, dir: Direction::Right, food, score: 0 };
    proof {
        assert(g.snake@ =~= seq![start]);
    }
    g
}

/// Advances the game by one frame: handles the one sampled input event,
/// steers, moves, detects wall and self collision, eats and re-places food.
/// The exact rule is `frame_rel`; well-formedness is preserved.
pub fn step(state: &mut GameState, input: GameInput) -> (status: Status)
    requires
        old(state).wf(),
    ensures
        final(state).wf(),
        frame_rel(*old(state), input, *final(state), status),
{
    let ghost pre = *old(state);
    let ghost w = pre.width as int;
    let ghost h = pre.height as int;
    if matches!(input, GameInput::Quit) {
        return Status::Terminated;
    }
    let d2 = steer(state.dir, input);
    state.dir = d2;
    let head = state.snake[0];
    let cand = next_head(head, d2);
    if cand.x <= 0 || cand.x >= state.width - 1 || cand.y <= 0 || cand.y >= state.height - 1 {
        return Status::Terminated;
    }
    if snake_contains(&state.snake, cand) {
        return Status::Terminated;
    }
    let ate = cand == state.food;
    state.snake.insert(0, cand);
    proof {
        assert(state.snake@ =~= seq![cand] + pre.snake@);
    }
    if ate {
        // the grown body's length is a machine word, so the score, one less
        // than it, has room to count one more
        let n = state.snake.len();
        assert(state.score == n - 2);
        state.score = state.score + 1;
        match place_food(&state.snake, state.width, state.height) {
            Some(p) => {
                state.food = p;
                Status::Running
            },
            None => Status::Terminated,
        }
    } else {
        state.snake.pop();
        proof {
            assert(state.snake@ =~= seq![cand] + pre.snake@.drop_last());
        }
        Status::Running
    }
}

/// Well-formedness on its own already keeps the food honest: whenever the
/// body leaves any interior cell free, the food sits on an interior cell
/// that is not part of the body.
pub proof fn lemma_food_off_body(g: GameState)
    requires
        g.wf(),
        !covers_interior(g.snake@, g.width as int, g.height as int),
    ensures
        in_interior(g.food, g.width as int, g.height as int),
        !g.snake@.contains(g.food),
{
}

/// A frame that commits a move without eating leaves the body's length and
/// the score exactly as they were: the tail comes off as the head goes on.
pub proof fn lemma_plain_move_keeps_length(
    pre: GameState,
    input: GameInput,
    post: GameState,
    status: Status,
)
    requires
        pre.wf(),
        frame_rel(pre, input, post, status),
        frame_moves(pre, input),
        !frame_eats(pre, input),
    ensures
        post.snake@.len() == pre.snake@.len(),
        post.score == pre.score,
{
}

/// A frame that eats grows the body by exactly one segment and the score by
/// exactly one point.
pub proof fn lemma_eating_grows_by_one(
    pre: GameState,
    input: GameInput,
    post: GameState,
    status: Status,
)
    requires
        pre.wf(),
        frame_rel(pre, input, post, status),
        frame_eats(pre, input),
    ensures
        post.snake@.len() == pre.snake@.len() + 1,
        post.score == pre.score + 1,
{
}

/// A candidate head on or beyond the border ends the game with the board
/// exactly as it was the frame before.
pub proof fn lemma_wall_collision_terminates(
    pre: GameState,
    input: GameInput,
    post: GameState,
    status: Status,
)
    requires
        pre.wf(),
        frame_rel(pre, input, post, status),
        input != GameInput::Quit,
        !in_interior(
            offset_pos(pre.head(), steer_spec(pre.dir, input)),
            pre.width as int,
            pre.height as int,
        ),
    ensures
        status == Status::Terminated,
        board_unchanged(pre, post),
{
}

/// A candidate head that lands on the body ends the game with the board
/// exactly as it was the frame before.
pub proof fn lemma_self_collision_terminates(
    pre: GameState,
    input: GameInput,
    post: GameState,
    status: Status,
)
    requires
        pre.wf(),
        frame_rel(pre, input, post, status),
        input != GameInput::Quit,
        pre.snake@.contains(offset_pos(pre.head(), steer_spec(pre.dir, input))),
    ensures
        status == Status::Terminated,
        board_unchanged(pre, post),
{
}

} // verus!
