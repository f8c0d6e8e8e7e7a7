use vstd::prelude::*;

verus! {

/// Why a proposed move was rejected.
#[derive(Debug, Clone, Copy, PartialEq, Eq, Structural)]
pub enum GameErr {
    PathIsBlocked,
    PositionOccupied,
    NoPieceAtPosition,
    NoMoveRegistered,
    IllegalMoveOnOtherPlayer,
    IllegalPawnMove,
    IllegalKingMove,
    IllegalQueenMove,
    IllegalKnightMove,
    IllegalBishopMove,
    IllegalRookMove,
}

pub type GameResult<T> = Result<T, GameErr>;

} // verus!
