//! Food placement: uniform sampling over the interior with a deterministic
//! sweep as a fallback, so that placement terminates even on a crowded board.

use vstd::prelude::*;

use crate::game::Position;
use crate::game::covers_interior;
use crate::game::in_interior;
use crate::game::snake_contains;

verus! {

/// How many uniform draws are tried before falling back to the sweep.
pub const SAMPLE_TRIES: u32 = 1024;

/// Relies on rand::Rng::gen_range over a half-open range, through
/// rand::thread_rng: the drawn value lies in the range, which must not be
/// empty (gen_range panics on an empty range).
#[verifier::external_body]
fn rand_between(lo: i32, hi: i32) -> (r: i32)
    requires
        lo < hi,
    ensures
        lo <= r < hi,
{
    rand::Rng::gen_range(&mut rand::thread_rng(), lo..hi)
}

/// Picks a cell for the food: an interior cell off the snake's body, when one
/// exists. First draws uniform interior cells, rejecting occupied ones; after
/// `SAMPLE_TRIES` occupied draws it sweeps the interior row by row, so the
/// search ends even when almost every cell is taken. `None` only when the
/// body covers the whole interior.
pub fn place_food(body: &Vec<Position>, width: i32, height: i32) -> (r: Option<Position>)
    requires
        width >= 3,
        height >= 3,
    ensures
        match r {
            Some(p) => in_interior(p, width as int, height as int) && !body@.contains(p),
            None => covers_interior(body@, width as int, height as int),
        },
{
    let mut tries: u32 = SAMPLE_TRIES;
    while tries > 0
        invariant
            width >= 3,
            height >= 3,
        decreases tries,
    {
        let p = Position { x: rand_between(1, width - 1), y: rand_between(1, height - 1) };
        if !snake_contains(body, p) {
            return Some(p);
        }
        tries = tries - 1;
    }
    let mut y: i32 = 1;
    while y < height - 1
        invariant
            width >= 3,
            height >= 3,
            1 <= y <= height - 1,
            forall|p: Position|
                in_interior(p, width as int, height as int) && p.y < y ==> #[trigger] body@.contains(
                    p,
                ),
        decreases height - 1 - y,
    {
        let mut x: i32 = 1;
        while x < width - 1
            invariant
                width >= 3,
                height >= 3,
                1 <= y <= height - 2,
                1 <= x <= width - 1,
                forall|p: Position|
                    in_interior(p, width as int, height as int) && p.y < y
                        ==> #[trigger] body@.contains(p),
                forall|p: Position|
                    in_interior(p, width as int, height as int) && p.y == y && p.x < x
                        ==> #[trigger] body@.contains(p),
            decreases width - 1 - x,
        {
            let p = Position { x, y };
            if !snake_contains(body, p) {
                return Some(p);
            }
            x = x + 1;
        }
        y = y + 1;
    }
    None
}

} // verus!
