use vstd::prelude::*;
use crate::board::{Board, Pos, file_of, rank_of, square_index, valid_pos};
use crate::errors::{GameErr, GameResult};
use crate::ruleengine::{
    between, capture_value, captured_value, file_delta, on_diagonal, path_clear, rank_delta,
    strictly_between,
};
use crate::types::{Color, Piece};

verus! {

/// What the bishop rule decides: a diagonal move over empty squares.
pub open spec fn bishop_rule(board: Seq<Option<Piece>>, from: Pos, to: Pos, mover: Color) -> GameResult<i32> {
    if !on_diagonal(from, to) {
        Err(GameErr::IllegalBishopMove)
    } else if !path_clear(board, from, to) {
        Err(GameErr::PathIsBlocked)
    } else {
        Ok(capture_value(board, to, mover))
    }
}

/// Signed distance along one axis, counted positive in the walking direction.
pub open spec fn toward(delta: int, forward: bool) -> int {
    if forward {
        delta
    } else {
        -delta
    }
}

/// `to` lies on the diagonal ray that leaves `from` upwards or downwards, to
/// the right or to the left.
pub open spec fn on_ray(from: Pos, to: Pos, up: bool, right: bool) -> bool {
    toward(file_delta(from, to), right) > 0 && toward(file_delta(from, to), right) == toward(
        rank_delta(from, to),
        up,
    )
}

/// Index of the square `steps` squares away from (file, rank) along a diagonal ray.
pub open spec fn ray_square(file: int, rank: int, steps: int, up: bool, right: bool) -> int {
    square_index(file + toward(steps, right), rank + toward(steps, up))
}

/// Walks the diagonal ray from `from` square by square up to the board's edge.
/// Gives `None` when `to` is not on it, else whether a piece stands between.
fn walk_diagonal(board: &Board, from: Pos, to: Pos, up: bool, right: bool) -> (r: Option<bool>)
    requires
        valid_pos(from),
        valid_pos(to),
    ensures
        r is Some <==> on_ray(from, to, up, right),
        r matches Some(blocked) ==> blocked == !path_clear(board@, from, to),
{
    let ff = from.0 as i32 - 'a' as i32;
    let fr = from.1 - 1;
    let tf = to.0 as i32 - 'a' as i32;
    let tr = to.1 - 1;
    let mut f = ff;
    let mut r = fr;
    let mut steps: i32 = 0;
    let mut blocked = false;
    loop
        invariant
            ff == file_of(from),
            fr == rank_of(from),
            tf == file_of(to),
            tr == rank_of(to),
            0 <= ff < 8,
            0 <= fr < 8,
            0 <= tf < 8,
            0 <= tr < 8,
            0 <= f < 8,
            0 <= r < 8,
            0 <= steps <= 7,
            toward(f - ff, right) == steps,
            toward(r - fr, up) == steps,
            on_ray(from, to, up, right) ==> toward(file_delta(from, to), right) > steps,
            blocked <==> exists|s: int|
                1 <= s <= steps && #[trigger] board@[ray_square(ff as int, fr as int, s, up, right)]
                    is Some,
        decreases 8 - steps,
    {
        if (right && f == 7) || (!right && f == 0) || (up && r == 7) || (!up && r == 0) {
            return None;
        }
        f = if right {
            f + 1
        } else {
            f - 1
        };
        r = if up {
            r + 1
        } else {
            r - 1
        };
        steps = steps + 1;
        if f == tf && r == tr {
            proof {
                assert(on_ray(from, to, up, right));
                if blocked {
                    let s = choose|s: int|
                        1 <= s <= steps - 1 && #[trigger] board@[ray_square(
                            ff as int,
                            fr as int,
                            s,
                            up,
                            right,
                        )] is Some;
                    let file = ff + toward(s, right);
                    let rank = fr + toward(s, up);
                    assert(strictly_between(from, to, file, rank));
                } else {
                    assert forall|file: int, rank: int|
                        #![trigger strictly_between(from, to, file, rank)]
                        0 <= file < 8 && 0 <= rank < 8 && strictly_between(
                            from,
                            to,
                            file,
                            rank,
                        ) implies board@[square_index(file, rank)] is None by {
                        let s = toward(file - ff, right);
                        assert(board@[ray_square(ff as int, fr as int, s, up, right)] is None);
                    }
                }
            }
            return Some(blocked);
        }
        let idx = (r * 8 + f) as usize;
        if board[idx].is_some() {
            blocked = true;
        }
        proof {
            assert(idx == ray_square(ff as int, fr as int, steps as int, up, right));
        }
    }
}

/// Checks a bishop move along each of the four diagonals and returns the points
/// of the piece it captures.
pub fn check(board: &Board, from: Pos, to: Pos, current_player: Color) -> (r: GameResult<i32>)
    requires
        valid_pos(from),
        valid_pos(to),
    ensures
        r == bishop_rule(board@, from, to, current_player),
{
    let directions: [(bool, bool); 4] = [(true, true), (true, false), (false, true), (false, false)];
    let mut i: usize = 0;
    while i < 4
        invariant
            directions@ == seq![(true, true), (true, false), (false, true), (false, false)],
            i <= 4,
            valid_pos(from),
            valid_pos(to),
            forall|j: int| 0 <= j < i ==> !on_ray(from, to, #[trigger] directions@[j].0, directions@[j].1),
        decreases 4 - i,
    {
        let (up, right) = directions[i];
        if let Some(blocked) = walk_diagonal(board, from, to, up, right) {
            if blocked {
                return Err(GameErr::PathIsBlocked);
            }
            let v = captured_value(board, to, current_player);
            return Ok(v);
        }
        i = i + 1;
    }
    proof {
        assert(!on_ray(from, to, directions@[0].0, directions@[0].1));
        assert(!on_ray(from, to, directions@[1].0, directions@[1].1));
        assert(!on_ray(from, to, directions@[2].0, directions@[2].1));
        assert(!on_ray(from, to, directions@[3].0, directions@[3].1));
    }
    Err(GameErr::IllegalBishopMove)
}

} // verus!
