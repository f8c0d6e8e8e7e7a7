use vstd::prelude::*;
use crate::board::{Board, Pos, valid_pos};
use crate::errors::{GameErr, GameResult};
use crate::ruleengine::{abs, capture_value, captured_value, file_delta, rank_delta};
use crate::types::{Color, Piece};

verus! {

/// The squares are neighbours: one step apart in one of the eight directions.
pub open spec fn adjacent(from: Pos, to: Pos) -> bool {
    abs(file_delta(from, to)) <= 1 && abs(rank_delta(from, to)) <= 1 && from != to
}

/// What the king rule decides: one step in any direction.
pub open spec fn king_rule(board: Seq<Option<Piece>>, from: Pos, to: Pos, mover: Color) -> GameResult<i32> {
    if adjacent(from, to) {
        Ok(capture_value(board, to, mover))
    } else {
        Err(GameErr::IllegalKingMove)
    }
}

/// Checks a king move and returns the points of the piece it captures.
pub fn check(board: &Board, from: Pos, to: Pos, current_player: Color) -> (r: GameResult<i32>)
    requires
        valid_pos(from),
        valid_pos(to),
    ensures
        r == king_rule(board@, from, to, current_player),
{
    let df = to.0 as i32 - from.0 as i32;
    let dr = to.1 - from.1;
    if -1 <= df && df <= 1 && -1 <= dr && dr <= 1 && !(df == 0 && dr == 0) {
        let v = captured_value(board, to, current_player);
        return Ok(v);
    }
    Err(GameErr::IllegalKingMove)
}

} // verus!
