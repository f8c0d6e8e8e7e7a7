use vstd::prelude::*;
use crate::board::{Board, Pos, at, file_of, rank_of, square_index, valid_pos, get_piece_at_pos};
use crate::errors::{GameErr, GameResult};
use crate::game::Game;
use crate::types::{Color, Piece, PieceType, points_of};

pub mod ruleset_bishop;
pub mod ruleset_king;
pub mod ruleset_knight;
pub mod ruleset_pawn;
pub mod ruleset_rook;

verus! {

/// How far a move goes along the files (positive towards 'h').
pub open spec fn file_delta(from: Pos, to: Pos) -> int {
    file_of(to) - file_of(from)
}

/// How far a move goes along the ranks (positive towards rank 8).
pub open spec fn rank_delta(from: Pos, to: Pos) -> int {
    rank_of(to) - rank_of(from)
}

pub open spec fn abs(x: int) -> int {
    if x < 0 {
        -x
    } else {
        x
    }
}

/// `x` lies strictly between `a` and `b`, in either order.
pub open spec fn between(a: int, x: int, b: int) -> bool {
    (a < x && x < b) || (b < x && x < a)
}

/// Both squares share a file or a rank.
pub open spec fn on_straight_line(from: Pos, to: Pos) -> bool {
    file_delta(from, to) == 0 || rank_delta(from, to) == 0
}

/// The squares are distinct and share a diagonal.
pub open spec fn on_diagonal(from: Pos, to: Pos) -> bool {
    file_delta(from, to) != 0 && abs(file_delta(from, to)) == abs(rank_delta(from, to))
}

/// The square (file, rank) lies on the straight or diagonal segment from `from`
/// to `to`, excluding both ends.
pub open spec fn strictly_between(from: Pos, to: Pos, file: int, rank: int) -> bool {
    let (ff, fr, tf, tr) = (file_of(from), rank_of(from), file_of(to), rank_of(to));
    if ff == tf {
        file == ff && between(fr, rank, tr)
    } else if fr == tr {
        rank == fr && between(ff, file, tf)
    } else {
        between(ff, file, tf) && between(fr, rank, tr) && (file - ff == rank - fr || file - ff
            == fr - rank)
    }
}

/// Every square strictly between `from` and `to` is empty.
pub open spec fn path_clear(board: Seq<Option<Piece>>, from: Pos, to: Pos) -> bool {
    forall|file: int, rank: int|
        #![trigger strictly_between(from, to, file, rank)]
        0 <= file < 8 && 0 <= rank < 8 && strictly_between(from, to, file, rank) ==> board[square_index(file, rank)] is None
}

/// Points won by moving onto `to`: the value of an opposing piece standing
/// there, else 0.
pub open spec fn capture_value(board: Seq<Option<Piece>>, to: Pos, mover: Color) -> i32 {
    match at(board, to) {
        Some(p) => if p.color != mover {
            points_of(p.piece_type)
        } else {
            0
        },
        None => 0,
    }
}

/// The value of a capture on `to` by the side `mover`.
pub fn captured_value(board: &Board, to: Pos, mover: Color) -> (r: i32)
    requires
        valid_pos(to),
    ensures
        r == capture_value(board@, to, mover),
{
    if let Some(piece) = get_piece_at_pos(board, to) {
        if piece.color != mover {
            return piece.get_points();
        }
    }
    0
}


/// What the queen rule decides: a straight or diagonal move over empty squares.
pub open spec fn queen_rule(board: Seq<Option<Piece>>, from: Pos, to: Pos, mover: Color) -> GameResult<i32> {
    if !(on_straight_line(from, to) || on_diagonal(from, to)) {
        Err(GameErr::IllegalQueenMove)
    } else if !path_clear(board, from, to) {
        Err(GameErr::PathIsBlocked)
    } else {
        Ok(capture_value(board, to, mover))
    }
}

/// The rule for a piece of the given kind.
pub open spec fn piece_rule(
    kind: PieceType,
    board: Seq<Option<Piece>>,
    from: Pos,
    to: Pos,
    mover: Color,
) -> GameResult<i32> {
    match kind {
        PieceType::Pawn => ruleset_pawn::pawn_rule(board, from, to, mover),
        PieceType::Knight => ruleset_knight::knight_rule(board, from, to, mover),
        PieceType::Bishop => ruleset_bishop::bishop_rule(board, from, to, mover),
        PieceType::Rook => ruleset_rook::rook_rule(board, from, to, mover),
        PieceType::Queen => queen_rule(board, from, to, mover),
        PieceType::King => ruleset_king::king_rule(board, from, to, mover),
    }
}

/// What a move of the piece on `from` by the side `mover` yields: the side
/// must own the piece, the move must go somewhere, the target must not hold a
/// piece of the same side, and the piece's own rule must accept the move.
pub open spec fn allowed_rule(board: Seq<Option<Piece>>, from: Pos, to: Pos, mover: Color) -> GameResult<i32> {
    let piece = at(board, from).unwrap();
    if piece.color != mover {
        Err(GameErr::IllegalMoveOnOtherPlayer)
    } else if from == to {
        Err(GameErr::NoMoveRegistered)
    } else if at(board, to) is Some && at(board, to).unwrap().color == piece.color {
        Err(GameErr::PositionOccupied)
    } else {
        piece_rule(piece.piece_type, board, from, to, mover)
    }
}

/// Checks a queen move as a rook move, then as a bishop move.
pub fn check_queen(board: &Board, from: Pos, to: Pos, current_player: Color) -> (r: GameResult<i32>)
    requires
        valid_pos(from),
        valid_pos(to),
    ensures
        r == queen_rule(board@, from, to, current_player),
{
    match ruleset_rook::check(board, from, to, current_player) {
        Ok(v) => Ok(v),
        Err(GameErr::PathIsBlocked) => Err(GameErr::PathIsBlocked),
        Err(_) => match ruleset_bishop::check(board, from, to, current_player) {
            Ok(v) => Ok(v),
            Err(GameErr::PathIsBlocked) => Err(GameErr::PathIsBlocked),
            Err(_) => Err(GameErr::IllegalQueenMove),
        },
    }
}

/// Decides whether the piece on `from` may move to `to` for `current_player`,
/// and returns the points of the piece it captures.
pub fn is_allowed_move(game: &Game, from: Pos, to: Pos, current_player: Color) -> (r: GameResult<i32>)
    requires
        valid_pos(from),
        valid_pos(to),
        at(game.board@, from) is Some,
    ensures
        r == allowed_rule(game.board@, from, to, current_player),
{
    let piece_from = *get_piece_at_pos(&game.board, from).unwrap();
    let piece_to = get_piece_at_pos(&game.board, to);
    if piece_from.color != current_player {
        return Err(GameErr::IllegalMoveOnOtherPlayer);
    }
    if from.0 == to.0 && from.1 == to.1 {
        return Err(GameErr::NoMoveRegistered);
    }
    if let Some(piece_to) = piece_to {
        if piece_from.color == piece_to.color {
            return Err(GameErr::PositionOccupied);
        }
    }
    match piece_from.piece_type {
        PieceType::Pawn => ruleset_pawn::check(&game.board, from, to, current_player),
        PieceType::Rook => ruleset_rook::check(&game.board, from, to, current_player),
        PieceType::Knight => ruleset_knight::check(&game.board, from, to, current_player),
        PieceType::Bishop => ruleset_bishop::check(&game.board, from, to, current_player),
        PieceType::Queen => check_queen(&game.board, from, to, current_player),
        PieceType::King => ruleset_king::check(&game.board, from, to, current_player),
    }
}


/// The castling right that a move would use, as its letter, or '-': a move
/// of the side to move from the e-file to the g-file of its own back rank
/// names the king side's letter while that right is held, else the queen
/// side's letter while that one is held.
pub open spec fn castling_letter(game: &Game, from: Pos, to: Pos, current_player: Color) -> Seq<char> {
    let white = from.0 == 'e' && to.0 == 'g' && from.1 == 1 && to.1 == 1 && current_player
        == Color::White;
    let black = from.0 == 'e' && to.0 == 'g' && from.1 == 8 && to.1 == 8 && current_player
        == Color::Black;
    if white && game.rights.white_kingside {
        seq!['K']
    } else if white && game.rights.white_queenside {
        seq!['Q']
    } else if black && game.rights.black_kingside {
        seq!['k']
    } else if black && game.rights.black_queenside {
        seq!['q']
    } else {
        seq!['-']
    }
}

/// Which castling right a move from `from` to `to` would use.
pub fn is_castling_move(game: &Game, from: Pos, to: Pos, current_player: Color) -> (r: &'static str)
    ensures
        r@ == castling_letter(game, from, to, current_player),
{
    let white = from.0 == 'e' && to.0 == 'g' && from.1 == 1 && to.1 == 1 && current_player
        == Color::White;
    let black = from.0 == 'e' && to.0 == 'g' && from.1 == 8 && to.1 == 8 && current_player
        == Color::Black;
    proof {
        reveal_strlit("K");
        reveal_strlit("Q");
        reveal_strlit("k");
        reveal_strlit("q");
        reveal_strlit("-");
    }
    if white && game.rights.white_kingside {
        return "K";
    }
    if white && game.rights.white_queenside {
        return "Q";
    }
    if black && game.rights.black_kingside {
        return "k";
    }
    if black && game.rights.black_queenside {
        return "q";
    }
    "-"
}

} // verus!
