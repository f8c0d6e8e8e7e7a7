use vstd::prelude::*;
use crate::board::{Board, Pos, at, rank_of, valid_pos, get_piece_at_pos};
use crate::errors::{GameErr, GameResult};
use crate::ruleengine::{abs, capture_value, captured_value, file_delta, rank_delta};
use crate::types::{Color, Piece, points_of};

verus! {

/// The rank direction in which a side's pawns advance.
pub open spec fn forward(c: Color) -> int {
    match c {
        Color::White => 1,
        Color::Black => -1,
    }
}

/// The zero-based rank on which a side's pawns start.
pub open spec fn start_rank(c: Color) -> int {
    match c {
        Color::White => 1,
        Color::Black => 6,
    }
}

/// What the pawn rule decides: one step forward onto an empty square, two steps
/// forward from the starting rank, or one step diagonally forward onto an
/// opposing piece.
pub open spec fn pawn_rule(board: Seq<Option<Piece>>, from: Pos, to: Pos, mover: Color) -> GameResult<i32> {
    let (df, dr) = (file_delta(from, to), rank_delta(from, to));
    if df == 0 && dr == forward(mover) && at(board, to) is None {
        Ok(0)
    } else if df == 0 && dr == 2 * forward(mover) && rank_of(from) == start_rank(mover) {
        Ok(capture_value(board, to, mover))
    } else if abs(df) == 1 && dr == forward(mover) && at(board, to) is Some && at(
        board,
        to,
    ).unwrap().color != mover {
        Ok(points_of(at(board, to).unwrap().piece_type))
    } else {
        Err(GameErr::IllegalPawnMove)
    }
}

/// Checks a pawn move and returns the points of the piece it captures.
pub fn check(board: &Board, from: Pos, to: Pos, current_player: Color) -> (r: GameResult<i32>)
    requires
        valid_pos(from),
        valid_pos(to),
    ensures
        r == pawn_rule(board@, from, to, current_player),
{
    let piece_to = get_piece_at_pos(board, to);
    let step: i32 = match current_player {
        Color::White => 1,
        Color::Black => -1,
    };
    let start: i32 = match current_player {
        Color::White => 2,
        Color::Black => 7,
    };
    if to.1 - from.1 == step && from.0 == to.0 && piece_to.is_none() {
        return Ok(0);
    }
    if to.1 - from.1 == 2 * step && from.0 == to.0 && from.1 == start {
        let v = captured_value(board, to, current_player);
        return Ok(v);
    }
    let df = to.0 as i32 - from.0 as i32;
    if let Some(target) = piece_to {
        if to.1 - from.1 == step && (df == 1 || df == -1) && target.color != current_player {
            return Ok(target.get_points());
        }
    }
    Err(GameErr::IllegalPawnMove)
}

} // verus!
