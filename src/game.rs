use vstd::prelude::*;
use crate::board::{Board, Pos, at, file_of, index_of, valid_pos, get_index_based_on_pos, get_piece_at_pos};
use crate::errors::{GameErr, GameResult};
use crate::fen::{fen_text, get_fen, push_char};
use crate::ruleengine::{allowed_rule, is_allowed_move};
use crate::types::{Color, Piece, PieceType, glyph_of, points_of};

verus! {

/// Which castling moves each side may still make.
#[derive(Debug, Clone, Copy, PartialEq, Eq, Structural)]
pub struct CastlingRights {
    pub white_kingside: bool,
    pub white_queenside: bool,
    pub black_kingside: bool,
    pub black_queenside: bool,
}

/// Every right held by `a` is also held by `b`.
pub open spec fn rights_within(a: CastlingRights, b: CastlingRights) -> bool {
    (a.white_kingside ==> b.white_kingside) && (a.white_queenside ==> b.white_queenside) && (
    a.black_kingside ==> b.black_kingside) && (a.black_queenside ==> b.black_queenside)
}

/// White's rights as letters: "K" for the king side, then "Q" for the queen side.
pub open spec fn white_rights_text(r: CastlingRights) -> Seq<char> {
    (if r.white_kingside {
        seq!['K']
    } else {
        seq![]
    }) + (if r.white_queenside {
        seq!['Q']
    } else {
        seq![]
    })
}

/// Black's rights as letters: "k" for the king side, then "q" for the queen side.
pub open spec fn black_rights_text(r: CastlingRights) -> Seq<char> {
    (if r.black_kingside {
        seq!['k']
    } else {
        seq![]
    }) + (if r.black_queenside {
        seq!['q']
    } else {
        seq![]
    })
}

/// The rights left after `piece` of side `mover` leaves `from`: a king loses
/// both of its side's rights, a rook the right on its own side of the king's
/// file, any other piece none.
pub open spec fn rights_after(r: CastlingRights, piece: Piece, from: Pos, mover: Color) -> CastlingRights {
    if piece.piece_type == PieceType::King {
        match mover {
            Color::White => CastlingRights { white_kingside: false, white_queenside: false, ..r },
            Color::Black => CastlingRights { black_kingside: false, black_queenside: false, ..r },
        }
    } else if piece.piece_type == PieceType::Rook {
        if file_of(from) < 4 {
            match mover {
                Color::White => CastlingRights { white_queenside: false, ..r },
                Color::Black => CastlingRights { black_queenside: false, ..r },
            }
        } else {
            match mover {
                Color::White => CastlingRights { white_kingside: false, ..r },
                Color::Black => CastlingRights { black_kingside: false, ..r },
            }
        }
    } else {
        r
    }
}

/// The game as a mathematical value.
pub struct GameState {
    pub board: Seq<Option<Piece>>,
    pub current_player: Color,
    pub score_white: int,
    pub score_black: int,
    pub rights: CastlingRights,
    pub half_time_moves: int,
    pub moves: int,
}

/// What the board holds at the start of a game.
pub open spec fn initial_square(i: int) -> Option<Piece> {
    if 0 <= i < 8 {
        Some(Piece { color: Color::White, piece_type: back_rank_kind(i) })
    } else if 8 <= i < 16 {
        Some(Piece { color: Color::White, piece_type: PieceType::Pawn })
    } else if 48 <= i < 56 {
        Some(Piece { color: Color::Black, piece_type: PieceType::Pawn })
    } else if 56 <= i < 64 {
        Some(Piece { color: Color::Black, piece_type: back_rank_kind(i - 56) })
    } else {
        None
    }
}

/// The kind of piece that starts on file `f` of a side's back rank.
pub open spec fn back_rank_kind(f: int) -> PieceType {
    if f == 0 || f == 7 {
        PieceType::Rook
    } else if f == 1 || f == 6 {
        PieceType::Knight
    } else if f == 2 || f == 5 {
        PieceType::Bishop
    } else if f == 3 {
        PieceType::Queen
    } else {
        PieceType::King
    }
}

/// The glyph that shows a square on a board.
pub open spec fn square_glyph(o: Option<Piece>) -> char {
    match o {
        Some(p) => glyph_of(p),
        None => '\u{25A1}',
    }
}

/// The state in which a game starts.
pub open spec fn initial_state() -> GameState {
    GameState {
        board: Seq::new(64, |i: int| initial_square(i)),
        current_player: Color::White,
        score_white: 0,
        score_black: 0,
        rights: CastlingRights {
            white_kingside: true,
            white_queenside: true,
            black_kingside: true,
            black_queenside: true,
        },
        half_time_moves: 0,
        moves: 1,
    }
}

/// What a move request from `from` to `to` yields: the points it captures, or
/// why it is rejected.
pub open spec fn move_outcome(s: GameState, from: Pos, to: Pos) -> GameResult<i32> {
    match at(s.board, from) {
        None => Err(GameErr::NoPieceAtPosition),
        Some(_) => allowed_rule(s.board, from, to, s.current_player),
    }
}

/// The state after a move request: unchanged when it is rejected; else the
/// piece is moved, the turn passes, the capture is scored, castling rights
/// decay, the half-move clock resets on a pawn move or a capture and counts
/// up otherwise, and the move counter counts up.
pub open spec fn next_state(s: GameState, from: Pos, to: Pos) -> GameState {
    match move_outcome(s, from, to) {
        Err(_) => s,
        Ok(points) => {
            let piece = at(s.board, from).unwrap();
            GameState {
                board: s.board.update(index_of(from), None).update(index_of(to), Some(piece)),
                current_player: s.current_player.opponent(),
                score_white: if s.current_player == Color::White {
                    s.score_white + points
                } else {
                    s.score_white
                },
                score_black: if s.current_player == Color::Black {
                    s.score_black + points
                } else {
                    s.score_black
                },
                rights: rights_after(s.rights, piece, from, s.current_player),
                half_time_moves: if piece.piece_type == PieceType::Pawn || points > 0 {
                    0
                } else {
                    s.half_time_moves + 1
                },
                moves: s.moves + 1,
            }
        },
    }
}

/// A game: the board, whose turn it is, the scores, the castling rights, the
/// half-move clock, the move counter and the position string.
#[derive(Debug)]
pub struct Game {
    pub board: Board,
    pub fen: String,
    pub current_player: Color,
    pub score_white: i32,
    pub score_black: i32,
    pub white_can_castle: String,
    pub black_can_castle: String,
    pub half_time_moves: u64,
    pub rights: CastlingRights,
    pub moves: u64,
}

/// What a square adds to side `c`'s material.
pub open spec fn worth(o: Option<Piece>, c: Color) -> int {
    match o {
        Some(p) => if p.color == c {
            points_of(p.piece_type) as int
        } else {
            0
        },
        None => 0,
    }
}

/// The points that side `c`'s pieces on the first `n` squares are worth.
pub open spec fn material(board: Seq<Option<Piece>>, c: Color, n: int) -> int
    decreases n,
{
    if n <= 0 {
        0
    } else {
        material(board, c, n - 1) + worth(board[n - 1], c)
    }
}

/// The points a side's pieces are worth at the start: eight pawns, two
/// knights, two bishops, two rooks, a queen and a king.
pub open spec fn full_material() -> int {
    139
}

/// A side's score and what the opponent still has on the board add up to the
/// opponent's starting material: points come only from captures.
pub open spec fn scores_match_material(s: GameState) -> bool {
    &&& s.score_white + material(s.board, Color::Black, 64) == full_material()
    &&& s.score_black + material(s.board, Color::White, 64) == full_material()
}

/// Material is never negative.
proof fn lemma_material_nonnegative(board: Seq<Option<Piece>>, c: Color, n: int)
    ensures
        material(board, c, n) >= 0,
    decreases n,
{
    if n > 0 {
        lemma_material_nonnegative(board, c, n - 1);
    }
}

/// Replacing what stands on one square changes material by the difference.
proof fn lemma_material_update(board: Seq<Option<Piece>>, c: Color, n: int, i: int, x: Option<Piece>)
    requires
        0 <= i < board.len(),
        n <= board.len(),
    ensures
        material(board.update(i, x), c, n) == material(board, c, n) + if i < n {
            worth(x, c) - worth(board[i], c)
        } else {
            0
        },
    decreases n,
{
    if n > 0 {
        lemma_material_update(board, c, n - 1, i, x);
    }
}

/// Squares `m` up to `n` hold nothing of side `c`.
proof fn lemma_material_flat(board: Seq<Option<Piece>>, c: Color, m: int, n: int)
    requires
        0 <= m <= n <= board.len(),
        forall|k: int| m <= k < n ==> worth(#[trigger] board[k], c) == 0,
    ensures
        material(board, c, n) == material(board, c, m),
    decreases n - m,
{
    if n > m {
        lemma_material_flat(board, c, m, n - 1);
    }
}

/// Each side starts with its full material.
proof fn lemma_initial_material()
    ensures
        material(initial_state().board, Color::White, 64) == full_material(),
        material(initial_state().board, Color::Black, 64) == full_material(),
{
    let b = initial_state().board;
    assert(material(b, Color::White, 16) == full_material()) by {
        reveal_with_fuel(material, 17);
    }
    lemma_material_flat(b, Color::White, 16, 64);
    lemma_material_flat(b, Color::Black, 0, 48);
    assert(material(b, Color::Black, 64) == material(b, Color::Black, 48) + full_material()) by {
        reveal_with_fuel(material, 17);
    }
}

/// A move is scored with the value of what stands on its target.
proof fn lemma_points_are_captured_worth(s: GameState, from: Pos, to: Pos)
    requires
        move_outcome(s, from, to) is Ok,
    ensures
        move_outcome(s, from, to)->Ok_0 == worth(at(s.board, to), s.current_player.opponent()),
        at(s.board, to) is Some ==> at(s.board, to).unwrap().color != s.current_player,
{
}

impl View for Game {
    type V = GameState;

    open spec fn view(&self) -> GameState {
        GameState {
            board: self.board@,
            current_player: self.current_player,
            score_white: self.score_white as int,
            score_black: self.score_black as int,
            rights: self.rights,
            half_time_moves: self.half_time_moves as int,
            moves: self.moves as int,
        }
    }
}

impl Game {
    /// The castling strings and the position string agree with the state.
    pub open spec fn wf(&self) -> bool {
        &&& self.white_can_castle@ == white_rights_text(self.rights)
        &&& self.black_can_castle@ == black_rights_text(self.rights)
        &&& self.fen@ == fen_text(self@)
        &&& scores_match_material(self@)
    }

    /// The counters can take one more move without overflow.
    pub open spec fn has_room(&self) -> bool {
        &&& self.moves < u64::MAX
        &&& self.half_time_moves < u64::MAX
    }
}

/// The letters of White's castling rights.
pub fn white_rights_string(r: &CastlingRights) -> (s: String)
    ensures
        s@ == white_rights_text(*r),
{
    let mut s = String::new();
    if r.white_kingside {
        push_char(&mut s, 'K');
    }
    if r.white_queenside {
        push_char(&mut s, 'Q');
    }
    proof {
        assert(s@ =~= white_rights_text(*r));
    }
    s
}

/// The letters of Black's castling rights.
pub fn black_rights_string(r: &CastlingRights) -> (s: String)
    ensures
        s@ == black_rights_text(*r),
{
    let mut s = String::new();
    if r.black_kingside {
        push_char(&mut s, 'k');
    }
    if r.black_queenside {
        push_char(&mut s, 'q');
    }
    proof {
        assert(s@ =~= black_rights_text(*r));
    }
    s
}

/// The kind of piece that starts on file `f` of a back rank.
fn back_rank_piece(f: usize) -> (k: PieceType)
    requires
        f < 8,
    ensures
        k == back_rank_kind(f as int),
{
    if f == 0 || f == 7 {
        PieceType::Rook
    } else if f == 1 || f == 6 {
        PieceType::Knight
    } else if f == 2 || f == 5 {
        PieceType::Bishop
    } else if f == 3 {
        PieceType::Queen
    } else {
        PieceType::King
    }
}

/// What stands on square `i` at the start of a game.
fn initial_piece(i: usize) -> (r: Option<Piece>)
    requires
        i < 64,
    ensures
        r == initial_square(i as int),
{
    if i < 8 {
        Some(Piece { color: Color::White, piece_type: back_rank_piece(i) })
    } else if i < 16 {
        Some(Piece { color: Color::White, piece_type: PieceType::Pawn })
    } else if i < 48 {
        None
    } else if i < 56 {
        Some(Piece { color: Color::Black, piece_type: PieceType::Pawn })
    } else {
        Some(Piece { color: Color::Black, piece_type: back_rank_piece(i - 56) })
    }
}

/// The rights left after `piece` of side `mover` leaves `from`.
fn update_rights(r: CastlingRights, piece: Piece, from: Pos, mover: Color) -> (n: CastlingRights)
    requires
        valid_pos(from),
    ensures
        n == rights_after(r, piece, from, mover),
{
    let mut n = r;
    if piece.piece_type == PieceType::King {
        match mover {
            Color::White => {
                n.white_kingside = false;
                n.white_queenside = false;
            },
            Color::Black => {
                n.black_kingside = false;
                n.black_queenside = false;
            },
        }
    } else if piece.piece_type == PieceType::Rook {
        if 'e' > from.0 {
            match mover {
                Color::White => n.white_queenside = false,
                Color::Black => n.black_queenside = false,
            }
        } else {
            match mover {
                Color::White => n.white_kingside = false,
                Color::Black => n.black_kingside = false,
            }
        }
    }
    n
}

impl Game {
    /// A game in the standard starting position, White to move, with full
    /// castling rights, no points and a zero half-move clock.
    pub fn new() -> (g: Self)
        ensures
            g.wf(),
            g@ == initial_state(),
    {
        let mut board: Board = [None; 64];
        let mut i: usize = 0;
        while i < 64
            invariant
                i <= 64,
                forall|j: int| 0 <= j < i ==> board@[j] == initial_square(j),
                forall|j: int| i <= j < 64 ==> board@[j] is None,
            decreases 64 - i,
        {
            board[i] = initial_piece(i);
            i = i + 1;
        }
        let rights = CastlingRights {
            white_kingside: true,
            white_queenside: true,
            black_kingside: true,
            black_queenside: true,
        };
        let mut g = Game {
            board,
            fen: String::new(),
            current_player: Color::White,
            score_white: 0,
            score_black: 0,
            white_can_castle: white_rights_string(&rights),
            black_can_castle: black_rights_string(&rights),
            half_time_moves: 0,
            rights,
            moves: 1,
        };
        proof {
            assert(g.board@ =~= initial_state().board);
            lemma_initial_material();
        }
        g.fen = get_fen(&g);
        g
    }

    /// The piece on a square, if any.
    pub fn get_pos(&self, pos: Pos) -> (r: Option<&Piece>)
        requires
            valid_pos(pos),
        ensures
            match r {
                Some(p) => at(self.board@, pos) == Some(*p),
                None => at(self.board@, pos) is None,
            },
    {
        get_piece_at_pos(&self.board, pos)
    }

    /// The glyph shown on square `index`: the piece's glyph, or an empty box.
    pub fn glyph_at(&self, index: usize) -> (r: char)
        requires
            index < 64,
        ensures
            r == square_glyph(self.board@[index as int]),
    {
        match self.board[index] {
            Some(piece) => piece.get_char_code(),
            None => '\u{25A1}',
        }
    }

    /// Whether the counters can take one more move.
    pub fn can_record_move(&self) -> (r: bool)
        ensures
            r == self.has_room(),
    {
        self.moves < u64::MAX && self.half_time_moves < u64::MAX
    }

    /// Plays the current player's piece from `from` to `to` if the move is
    /// legal. A rejected move changes nothing.
    pub fn move_piece(&mut self, from: Pos, to: Pos) -> (r: GameResult<()>)
        requires
            old(self).wf(),
            old(self).has_room(),
            valid_pos(from),
            valid_pos(to),
        ensures
            final(self).wf(),
            final(self)@ == next_state(old(self)@, from, to),
            r is Ok <==> move_outcome(old(self)@, from, to) is Ok,
            r matches Err(e) ==> move_outcome(old(self)@, from, to) == Err::<i32, GameErr>(e),
            r is Err ==> *final(self) == *old(self),
            r is Ok ==> final(self).current_player == old(self).current_player.opponent(),
            r is Err ==> final(self).current_player == old(self).current_player,
            rights_within(final(self).rights, old(self).rights),
            r is Ok ==> final(self).half_time_moves == if at(old(self).board@, from).unwrap().piece_type
                == PieceType::Pawn || move_outcome(old(self)@, from, to)->Ok_0 > 0 {
                0
            } else {
                old(self).half_time_moves + 1
            },
            r is Err ==> final(self).half_time_moves == old(self).half_time_moves,
    {
        let piece = match get_piece_at_pos(&self.board, from) {
            Some(p) => *p,
            None => return Err(GameErr::NoPieceAtPosition),
        };
        let points = match is_allowed_move(self, from, to, self.current_player) {
            Ok(p) => p,
            Err(e) => return Err(e),
        };
        proof {
            let b = old(self).board@;
            let c = old(self).current_player;
            lemma_points_are_captured_worth(old(self)@, from, to);
            lemma_material_nonnegative(b, Color::White, 64);
            lemma_material_nonnegative(b, Color::Black, 64);
            let b1 = b.update(index_of(from), None);
            let b2 = b1.update(index_of(to), Some(piece));
            lemma_material_update(b, Color::White, 64, index_of(from), None);
            lemma_material_update(b, Color::Black, 64, index_of(from), None);
            lemma_material_update(b1, Color::White, 64, index_of(to), Some(piece));
            lemma_material_update(b1, Color::Black, 64, index_of(to), Some(piece));
        }
        let from_idx = get_index_based_on_pos(from);
        self.board[from_idx] = None;
        let to_idx = get_index_based_on_pos(to);
        self.board[to_idx] = Some(piece);

        self.rights = update_rights(self.rights, piece, from, self.current_player);
        self.white_can_castle = white_rights_string(&self.rights);
        self.black_can_castle = black_rights_string(&self.rights);

        if piece.piece_type == PieceType::Pawn || points > 0 {
            self.half_time_moves = 0;
        } else {
            self.half_time_moves = self.half_time_moves + 1;
        }

        self.current_player = match self.current_player {
            Color::White => {
                self.score_white = self.score_white + points;
                Color::Black
            },
            Color::Black => {
                self.score_black = self.score_black + points;
                Color::White
            },
        };

        self.moves = self.moves + 1;
        self.fen = get_fen(self);
        Ok(())
    }
}

} // verus!
