use vstd::prelude::*;

verus! {

/// The kind of a chess piece.
#[derive(Debug, Clone, Copy, PartialEq, Eq, Structural)]
pub enum PieceType {
    Pawn,
    Knight,
    Bishop,
    Rook,
    Queen,
    King,
}

/// One of the two sides.
#[derive(Debug, Clone, Copy, PartialEq, Eq, Structural)]
pub enum Color {
    White,
    Black,
}

impl Color {
    /// The side that moves after this one.
    pub open spec fn opponent(self) -> Color {
        match self {
            Color::White => Color::Black,
            Color::Black => Color::White,
        }
    }

    pub open spec fn display_text(self) -> Seq<char> {
        match self {
            Color::White => seq!['W', 'H', 'I', 'T', 'E'],
            Color::Black => seq!['B', 'L', 'A', 'C', 'K'],
        }
    }

    /// The side's name in capitals.
    pub fn display(&self) -> (r: String)
        ensures
            r@ == self.display_text(),
    {
        match self {
            Color::White => {
                let r = String::from_str("WHITE");
                proof {
                    reveal_strlit("WHITE");
                }
                assert(r@ =~= self.display_text());
                r
            },
            Color::Black => {
                let r = String::from_str("BLACK");
                proof {
                    reveal_strlit("BLACK");
                }
                assert(r@ =~= self.display_text());
                r
            },
        }
    }
}

/// A piece: its side and its kind.
#[derive(Debug, Clone, Copy, PartialEq, Eq, Structural)]
pub struct Piece {
    pub color: Color,
    pub piece_type: PieceType,
}

/// The value of a piece of the given kind when it is captured.
pub open spec fn points_of(kind: PieceType) -> i32 {
    match kind {
        PieceType::Pawn => 1,
        PieceType::Knight => 3,
        PieceType::Bishop => 3,
        PieceType::Rook => 5,
        PieceType::Queen => 9,
        PieceType::King => 100,
    }
}

/// The chess glyph of a piece, as drawn on a board.
pub open spec fn glyph_of(p: Piece) -> char {
    match (p.piece_type, p.color) {
        (PieceType::King, Color::White) => '\u{2654}',
        (PieceType::Queen, Color::White) => '\u{2655}',
        (PieceType::Rook, Color::White) => '\u{2656}',
        (PieceType::Bishop, Color::White) => '\u{2657}',
        (PieceType::Knight, Color::White) => '\u{2658}',
        (PieceType::Pawn, Color::White) => '\u{2659}',
        (PieceType::King, Color::Black) => '\u{265A}',
        (PieceType::Queen, Color::Black) => '\u{265B}',
        (PieceType::Rook, Color::Black) => '\u{265C}',
        (PieceType::Bishop, Color::Black) => '\u{265D}',
        (PieceType::Knight, Color::Black) => '\u{265E}',
        (PieceType::Pawn, Color::Black) => '\u{265F}',
    }
}

/// The letter of a piece in a position string: upper case for White, lower case for Black.
pub open spec fn letter_of(p: Piece) -> char {
    match (p.piece_type, p.color) {
        (PieceType::Pawn, Color::White) => 'P',
        (PieceType::Knight, Color::White) => 'N',
        (PieceType::Bishop, Color::White) => 'B',
        (PieceType::Rook, Color::White) => 'R',
        (PieceType::Queen, Color::White) => 'Q',
        (PieceType::King, Color::White) => 'K',
        (PieceType::Pawn, Color::Black) => 'p',
        (PieceType::Knight, Color::Black) => 'n',
        (PieceType::Bishop, Color::Black) => 'b',
        (PieceType::Rook, Color::Black) => 'r',
        (PieceType::Queen, Color::Black) => 'q',
        (PieceType::King, Color::Black) => 'k',
    }
}

impl Piece {
    /// The glyph that shows this piece on a board.
    pub fn get_char_code(&self) -> (r: char)
        ensures
            r == glyph_of(*self),
    {
        match (self.piece_type, self.color) {
            (PieceType::King, Color::White) => '\u{2654}',
            (PieceType::Queen, Color::White) => '\u{2655}',
            (PieceType::Rook, Color::White) => '\u{2656}',
            (PieceType::Bishop, Color::White) => '\u{2657}',
            (PieceType::Knight, Color::White) => '\u{2658}',
            (PieceType::Pawn, Color::White) => '\u{2659}',
            (PieceType::King, Color::Black) => '\u{265A}',
            (PieceType::Queen, Color::Black) => '\u{265B}',
            (PieceType::Rook, Color::Black) => '\u{265C}',
            (PieceType::Bishop, Color::Black) => '\u{265D}',
            (PieceType::Knight, Color::Black) => '\u{265E}',
            (PieceType::Pawn, Color::Black) => '\u{265F}',
        }
    }

    /// The letter that stands for this piece in a position string.
    pub fn get_fen_char(&self) -> (r: char)
        ensures
            r == letter_of(*self),
    {
        match (self.piece_type, self.color) {
            (PieceType::Pawn, Color::White) => 'P',
            (PieceType::Knight, Color::White) => 'N',
            (PieceType::Bishop, Color::White) => 'B',
            (PieceType::Rook, Color::White) => 'R',
            (PieceType::Queen, Color::White) => 'Q',
            (PieceType::King, Color::White) => 'K',
            (PieceType::Pawn, Color::Black) => 'p',
            (PieceType::Knight, Color::Black) => 'n',
            (PieceType::Bishop, Color::Black) => 'b',
            (PieceType::Rook, Color::Black) => 'r',
            (PieceType::Queen, Color::Black) => 'q',
            (PieceType::King, Color::Black) => 'k',
        }
    }

    /// The points scored for capturing this piece.
    pub fn get_points(&self) -> (r: i32)
        ensures
            r == points_of(self.piece_type),
    {
        match self.piece_type {
            PieceType::Pawn => 1,
            PieceType::Knight => 3,
            PieceType::Bishop => 3,
            PieceType::Rook => 5,
            PieceType::Queen => 9,
            PieceType::King => 100,
        }
    }
}

} // verus!
