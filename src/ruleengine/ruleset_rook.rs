use vstd::prelude::*;
use crate::board::{Board, Pos, file_of, rank_of, square_index, valid_pos};
use crate::errors::{GameErr, GameResult};
use crate::ruleengine::{
    abs, capture_value, captured_value, file_delta, on_straight_line, path_clear,
    rank_delta, strictly_between,
};
use crate::types::{Color, Piece};

verus! {

/// What the rook rule decides: a move along a file or a rank over empty squares.
pub open spec fn rook_rule(board: Seq<Option<Piece>>, from: Pos, to: Pos, mover: Color) -> GameResult<i32> {
    if !on_straight_line(from, to) {
        Err(GameErr::IllegalRookMove)
    } else if !path_clear(board, from, to) {
        Err(GameErr::PathIsBlocked)
    } else {
        Ok(capture_value(board, to, mover))
    }
}

/// A move of more than one square along a rank or a file.
pub open spec fn sliding(from: Pos, to: Pos) -> bool {
    (abs(file_delta(from, to)) > 1 && rank_delta(from, to) == 0) || (abs(rank_delta(from, to)) > 1
        && file_delta(from, to) == 0)
}

/// Whether a straight move passes over at least one square.
pub fn is_sliding_move(from: &Pos, to: &Pos) -> (r: bool)
    requires
        valid_pos(*from),
        valid_pos(*to),
    ensures
        r == sliding(*from, *to),
{
    let df = to.0 as i32 - from.0 as i32;
    let dr = to.1 - from.1;
    if (df > 1 || df < -1) && to.1 == from.1 {
        return true;
    }
    if (dr > 1 || dr < -1) && to.0 == from.0 {
        return true;
    }
    false
}

/// Checks a rook move and returns the points of the piece it captures.
pub fn check(board: &Board, from: Pos, to: Pos, current_player: Color) -> (r: GameResult<i32>)
    requires
        valid_pos(from),
        valid_pos(to),
    ensures
        r == rook_rule(board@, from, to, current_player),
{
    if from.1 != to.1 && from.0 != to.0 {
        return Err(GameErr::IllegalRookMove);
    }
    if is_sliding_move(&from, &to) {
        let vertical = from.0 == to.0;
        let ff = from.0 as i32 - 'a' as i32;
        let tf = to.0 as i32 - 'a' as i32;
        let fr = from.1 - 1;
        let tr = to.1 - 1;
        let (lo, hi) = if vertical {
            if fr < tr {
                (fr, tr)
            } else {
                (tr, fr)
            }
        } else {
            if ff < tf {
                (ff, tf)
            } else {
                (tf, ff)
            }
        };
        let mut k: i32 = lo + 1;
        while k < hi
            invariant
                0 <= lo < hi < 8,
                0 <= ff < 8,
                0 <= tf < 8,
                0 <= fr < 8,
                0 <= tr < 8,
                lo < k <= hi,
                ff == file_of(from),
                tf == file_of(to),
                fr == rank_of(from),
                tr == rank_of(to),
                vertical == (ff == tf),
                vertical ==> lo == if fr < tr { fr } else { tr },
                vertical ==> hi == if fr < tr { tr } else { fr },
                !vertical ==> fr == tr,
                !vertical ==> lo == if ff < tf { ff } else { tf },
                !vertical ==> hi == if ff < tf { tf } else { ff },
                forall|file: int, rank: int|
                    #![trigger strictly_between(from, to, file, rank)]
                    0 <= file < 8 && 0 <= rank < 8 && strictly_between(from, to, file, rank) && (
                    if vertical { rank } else { file }) < k ==> board@[square_index(file, rank)] is None,
            decreases hi - k,
        {
            let idx: usize = if vertical {
                (k * 8 + ff) as usize
            } else {
                (fr * 8 + k) as usize
            };
            if board[idx].is_some() {
                proof {
                    if vertical {
                        assert(strictly_between(from, to, ff as int, k as int));
                    } else {
                        assert(strictly_between(from, to, k as int, fr as int));
                    }
                }
                return Err(GameErr::PathIsBlocked);
            }
            k = k + 1;
        }
    }
    let v = captured_value(board, to, current_player);
    Ok(v)
}

} // verus!
