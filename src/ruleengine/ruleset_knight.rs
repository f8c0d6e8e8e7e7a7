use vstd::prelude::*;
use vstd::arithmetic::div_mod::lemma_fundamental_div_mod_converse;
use crate::board::{Board, Pos, file_of, rank_of, square_index, valid_pos, get_index_based_on_pos};
use crate::errors::{GameErr, GameResult};
use crate::ruleengine::{abs, capture_value, captured_value, file_delta, rank_delta};
use crate::types::{Color, Piece};

verus! {

/// What the knight rule decides: two squares along one axis and one along the other.
pub open spec fn knight_rule(board: Seq<Option<Piece>>, from: Pos, to: Pos, mover: Color) -> GameResult<i32> {
    let (df, dr) = (abs(file_delta(from, to)), abs(rank_delta(from, to)));
    if (df == 1 && dr == 2) || (df == 2 && dr == 1) {
        Ok(capture_value(board, to, mover))
    } else {
        Err(GameErr::IllegalKnightMove)
    }
}

/// The square a knight reaches from `index` by going `step` ranks up or down
/// and `3 - step` files left or right, or -1 where that leaves the board.
pub open spec fn knight_target(index: int, step: int, up: bool, left: bool) -> int {
    let file = index % 8 + (if left {
        step - 3
    } else {
        3 - step
    });
    let rank = index / 8 + (if up {
        step
    } else {
        -step
    });
    if 0 <= file < 8 && 0 <= rank < 8 {
        square_index(file, rank)
    } else {
        -1
    }
}

/// Moves `index` by `step` ranks and `3 - step` files, rejecting a move that
/// wraps round the board's edge by checking how many ranks it crossed.
pub fn step(index: i32, steps: i32, direction_up: bool, direction_left: bool) -> (r: i32)
    requires
        0 <= index < 64,
        steps == 1 || steps == 2,
    ensures
        r == knight_target(index as int, steps as int, direction_up, direction_left),
{
    let index_moves = 8 * steps;
    let start_row = (index / 8) + 1;
    let last = if steps == 1 {
        if direction_left {
            -2i32
        } else {
            2
        }
    } else {
        if direction_left {
            -1i32
        } else {
            1
        }
    };
    let direction_val = if direction_up {
        index_moves
    } else {
        -index_moves
    };
    let end_pos = index + direction_val + last;
    let ghost q = (index as int) / 8;
    let ghost m = (index as int) % 8;
    let ghost rank = q + if direction_up {
        steps as int
    } else {
        -steps
    };
    let ghost file = m + last;
    proof {
        lemma_fundamental_div_mod_converse(index as int, 8, q, m);
        assert(index == q * 8 + m) by {
            vstd::arithmetic::div_mod::lemma_fundamental_div_mod(index as int, 8);
        }
        assert(end_pos == rank * 8 + file);
    }
    if (end_pos < 0) || (end_pos > 63) {
        return -1;
    }
    let end_row = (end_pos / 8) + 1;
    proof {
        if 0 <= file < 8 {
            lemma_fundamental_div_mod_converse(end_pos as int, 8, rank, file);
        } else if file < 0 {
            lemma_fundamental_div_mod_converse(end_pos as int, 8, rank - 1, file + 8);
        } else {
            lemma_fundamental_div_mod_converse(end_pos as int, 8, rank + 1, file - 8);
        }
    }
    if direction_up && end_row - start_row != steps {
        return -1;
    }
    if !direction_up && start_row - end_row != steps {
        return -1;
    }
    end_pos
}

/// The knight's move of two ranks and one file from `index`, or -1 off the board.
pub fn two_plus_one(index: i32, direction_up: bool, direction_left: bool) -> (r: i32)
    requires
        0 <= index < 64,
    ensures
        r == knight_target(index as int, 2, direction_up, direction_left),
{
    step(index, 2, direction_up, direction_left)
}

/// The knight's move of one rank and two files from `index`, or -1 off the board.
pub fn one_plus_two(index: i32, direction_up: bool, direction_left: bool) -> (r: i32)
    requires
        0 <= index < 64,
    ensures
        r == knight_target(index as int, 1, direction_up, direction_left),
{
    step(index, 1, direction_up, direction_left)
}

/// Checks a knight move against the eight squares a knight reaches and returns
/// the points of the piece it captures.
pub fn check(board: &Board, from: Pos, to: Pos, current_player: Color) -> (r: GameResult<i32>)
    requires
        valid_pos(from),
        valid_pos(to),
    ensures
        r == knight_rule(board@, from, to, current_player),
{
    let index = get_index_based_on_pos(from) as i32;
    let legal_pos: [i32; 8] = [
        two_plus_one(index, true, false),
        two_plus_one(index, true, true),
        two_plus_one(index, false, false),
        two_plus_one(index, false, true),
        one_plus_two(index, true, false),
        one_plus_two(index, true, true),
        one_plus_two(index, false, false),
        one_plus_two(index, false, true),
    ];
    let target = get_index_based_on_pos(to) as i32;
    proof {
        lemma_fundamental_div_mod_converse(index as int, 8, rank_of(from), file_of(from));
    }
    let mut is_valid = false;
    let mut i: usize = 0;
    while i < 8
        invariant
            i <= 8,
            is_valid <==> exists|j: int| 0 <= j < i && legal_pos@[j] == target,
        decreases 8 - i,
    {
        if legal_pos[i] == target {
            is_valid = true;
        }
        i = i + 1;
    }
    proof {
        let shapes = (abs(file_delta(from, to)) == 1 && abs(rank_delta(from, to)) == 2) || (abs(
            file_delta(from, to),
        ) == 2 && abs(rank_delta(from, to)) == 1);
        if shapes {
            let j: int = if rank_delta(from, to) == 2 || rank_delta(from, to) == -2 {
                (if rank_delta(from, to) > 0 { 0int } else { 2int }) + if file_delta(from, to) > 0 {
                    0int
                } else {
                    1int
                }
            } else {
                4 + (if rank_delta(from, to) > 0 { 0int } else { 2int }) + if file_delta(from, to) > 0 {
                    0int
                } else {
                    1int
                }
            };
            assert(legal_pos@[j] == target);
        } else {
            assert forall|j: int| 0 <= j < 8 implies legal_pos@[j] != target by {}
        }
    }
    if !is_valid {
        return Err(GameErr::IllegalKnightMove);
    }
    let v = captured_value(board, to, current_player);
    Ok(v)
}

} // verus!
