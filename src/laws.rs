use vstd::prelude::*;
use crate::board::{Pos, at, square_index, valid_pos};
use crate::errors::GameErr;
use crate::game::{GameState, move_outcome, next_state, rights_within};
use crate::ruleengine::{on_diagonal, on_straight_line, strictly_between};
use crate::types::PieceType;

verus! {

/// The state after a sequence of move requests, each applied to the state
/// the previous one left.
pub open spec fn play(s: GameState, moves: Seq<(Pos, Pos)>) -> GameState
    decreases moves.len(),
{
    if moves.len() == 0 {
        s
    } else {
        play(next_state(s, moves[0].0, moves[0].1), moves.drop_first())
    }
}

/// Castling rights only shrink: a right that is gone stays gone for the rest
/// of the game, whatever moves follow, rejected or accepted.
pub proof fn lemma_castling_rights_never_return(s: GameState, moves: Seq<(Pos, Pos)>)
    requires
        forall|i: int| 0 <= i < moves.len() ==> valid_pos(#[trigger] moves[i].0) && valid_pos(moves[i].1),
    ensures
        rights_within(play(s, moves).rights, s.rights),
    decreases moves.len(),
{
    if moves.len() > 0 {
        let next = next_state(s, moves[0].0, moves[0].1);
        let rest = moves.drop_first();
        assert forall|i: int| 0 <= i < rest.len() implies valid_pos(#[trigger] rest[i].0) && valid_pos(
            rest[i].1,
        ) by {
            assert(rest[i] == moves[i + 1]);
        }
        lemma_castling_rights_never_return(next, rest);
    }
}

/// A sliding piece whose way to its target holds a piece strictly between
/// the two squares is stopped with `PathIsBlocked`, whether the target is
/// empty or holds an opposing piece.
pub proof fn lemma_path_obstruction(s: GameState, from: Pos, to: Pos, file: int, rank: int)
    requires
        valid_pos(from),
        valid_pos(to),
        at(s.board, from) is Some,
        at(s.board, from).unwrap().color == s.current_player,
        match at(s.board, from).unwrap().piece_type {
            PieceType::Bishop => on_diagonal(from, to),
            PieceType::Rook => on_straight_line(from, to),
            PieceType::Queen => on_diagonal(from, to) || on_straight_line(from, to),
            _ => false,
        },
        at(s.board, to) is Some ==> at(s.board, to).unwrap().color != s.current_player,
        0 <= file < 8,
        0 <= rank < 8,
        strictly_between(from, to, file, rank),
        s.board[square_index(file, rank)] is Some,
    ensures
        move_outcome(s, from, to) == Err::<i32, GameErr>(GameErr::PathIsBlocked),
{
}

} // verus!
