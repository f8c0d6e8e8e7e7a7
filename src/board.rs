use vstd::prelude::*;
use crate::types::Piece;

verus! {

/// A square as (file letter, rank number), e.g. `('e', 4)`.
pub type Pos = (char, i32);

/// The 64 squares, rank 1 file a first, rank 8 file h last.
pub type Board = [Option<Piece>; 64];

/// Zero-based file of a square: 0 for 'a' up to 7 for 'h'.
pub open spec fn file_of(p: Pos) -> int {
    p.0 as int - 'a' as int
}

/// Zero-based rank of a square: 0 for rank 1 up to 7 for rank 8.
pub open spec fn rank_of(p: Pos) -> int {
    p.1 - 1
}

/// The square lies on the board.
pub open spec fn valid_pos(p: Pos) -> bool {
    0 <= file_of(p) < 8 && 0 <= rank_of(p) < 8
}

/// Index of the square with the given zero-based file and rank.
pub open spec fn square_index(file: int, rank: int) -> int {
    rank * 8 + file
}

/// Index of a square in the board.
pub open spec fn index_of(p: Pos) -> int {
    square_index(file_of(p), rank_of(p))
}

/// What stands on a square.
pub open spec fn at(board: Seq<Option<Piece>>, p: Pos) -> Option<Piece> {
    board[index_of(p)]
}

/// The index of a square: (rank - 1) * 8 + file.
pub fn get_index_based_on_pos(pos: Pos) -> (r: usize)
    requires
        valid_pos(pos),
    ensures
        r == index_of(pos),
        r < 64,
{
    let file = pos.0 as u32 - 'a' as u32;
    let row = (8 * pos.1 - 8) as usize;
    file as usize + row
}

/// The square at an index of the board.
pub fn get_pos_based_on_index(index: usize) -> (r: Pos)
    requires
        index < 64,
    ensures
        valid_pos(r),
        index_of(r) == index,
{
    let file = (index % 8) as u32;
    let rank = (index / 8) as i32 + 1;
    let c = if file == 0 {
        'a'
    } else if file == 1 {
        'b'
    } else if file == 2 {
        'c'
    } else if file == 3 {
        'd'
    } else if file == 4 {
        'e'
    } else if file == 5 {
        'f'
    } else if file == 6 {
        'g'
    } else {
        'h'
    };
    (c, rank)
}

/// Whether a square lies on the board.
pub fn is_valid_pos(pos: Pos) -> (r: bool)
    ensures
        r == valid_pos(pos),
{
    'a' <= pos.0 && pos.0 <= 'h' && 1 <= pos.1 && pos.1 <= 8
}

/// The piece on a square, if any.
pub fn get_piece_at_pos(board: &Board, pos: Pos) -> (r: Option<&Piece>)
    requires
        valid_pos(pos),
    ensures
        match r {
            Some(p) => at(board@, pos) == Some(*p),
            None => at(board@, pos) is None,
        },
{
    let board_index = get_index_based_on_pos(pos);
    board[board_index].as_ref()
}

/// The piece at an index of the board; `None` also past the last square.
pub fn get_piece_at_index(board: &Board, index: usize) -> (r: Option<&Piece>)
    ensures
        match r {
            Some(p) => index < 64 && board@[index as int] == Some(*p),
            None => index >= 64 || board@[index as int] is None,
        },
{
    if index < 64 {
        board[index].as_ref()
    } else {
        None
    }
}

} // verus!
