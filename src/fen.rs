use vstd::prelude::*;
use crate::board::{Board, square_index};
use crate::game::{
    CastlingRights, Game, GameState, black_rights_string, black_rights_text, white_rights_string,
    white_rights_text,
};

use crate::types::{Color, Piece, letter_of};

verus! {

/// The decimal digit for `d` in 0..=9.
pub open spec fn digit(d: int) -> char {
    (d + 48) as char
}

/// `n` written in decimal, without leading zeros.
pub open spec fn decimal(n: nat) -> Seq<char>
    decreases n,
{
    if n < 10 {
        seq![digit(n as int)]
    } else {
        decimal(n / 10).push(digit((n % 10) as int))
    }
}

/// A run of `run` ones written as its length; nothing for an empty run.
pub open spec fn run_text(run: nat) -> Seq<char> {
    if run == 0 {
        seq![]
    } else {
        decimal(run)
    }
}

/// `s`, after `run` ones already seen, with each maximal run of '1' replaced
/// by its length.
pub open spec fn compress_from(s: Seq<char>, run: nat) -> Seq<char>
    decreases s.len(),
{
    if s.len() == 0 {
        run_text(run)
    } else if s[0] == '1' {
        compress_from(s.drop_first(), run + 1)
    } else {
        run_text(run) + seq![s[0]] + compress_from(s.drop_first(), 0)
    }
}

/// `s` with each maximal run of '1' replaced by its length in decimal.
pub open spec fn compressed(s: Seq<char>) -> Seq<char> {
    compress_from(s, 0)
}

/// Relies on String::push: appends one character at the end.
#[verifier::external_body]
pub(crate) fn push_char(s: &mut String, c: char)
    ensures
        final(s)@ == old(s)@.push(c),
{
    s.push(c);
}

/// Appends `n` in decimal.
fn push_decimal(s: &mut String, n: u64)
    ensures
        final(s)@ == old(s)@ + decimal(n as nat),
    decreases n,
{
    if n >= 10 {
        push_decimal(s, n / 10);
    }
    let d = (n % 10) as u8;
    push_char(s, (d + 48) as char);
    proof {
        if n >= 10 {
            assert(final(s)@ =~= old(s)@ + decimal(n as nat));
        } else {
            assert(final(s)@ =~= old(s)@ + decimal(n as nat));
        }
    }
}

/// Replaces each run of consecutive '1' characters by the run's length.
pub fn compress_ones(f: String) -> (r: String)
    ensures
        r@ == compressed(f@),
{
    let s = f.as_str();
    let n = s.unicode_len();
    let mut result = String::new();
    let mut count: usize = 0;
    let mut i: usize = 0;
    proof {
        assert(f@.subrange(0, n as int) =~= f@);
    }
    while i < n
        invariant
            s@ == f@,
            n == f@.len(),
            i <= n,
            count <= i,
            result@ + compress_from(f@.subrange(i as int, n as int), count as nat) == compressed(f@),
        decreases n - i,
    {
        let c = s.get_char(i);
        let ghost rest = f@.subrange(i as int, n as int);
        let ghost before = result@;
        let ghost run = count as nat;
        proof {
            assert(rest.drop_first() =~= f@.subrange(i + 1, n as int));
            assert(rest[0] == c);
        }
        if c == '1' {
            count = count + 1;
        } else {
            if count > 0 {
                push_decimal(&mut result, count as u64);
                count = 0;
            }
            push_char(&mut result, c);
            proof {
                assert(result@ == before + run_text(run) + seq![c]);
                assert(before + (run_text(run) + seq![c] + compress_from(rest.drop_first(), 0))
                    =~= result@ + compress_from(rest.drop_first(), 0));
            }
        }
        i = i + 1;
    }
    proof {
        assert(f@.subrange(n as int, n as int) =~= Seq::<char>::empty());
    }
    if count > 0 {
        push_decimal(&mut result, count as u64);
    }
    proof {
        assert(result@ =~= compressed(f@));
    }
    result
}


/// The letter for what stands on a square; '1' for an empty square.
pub open spec fn square_char(o: Option<Piece>) -> char {
    match o {
        Some(p) => letter_of(p),
        None => '1',
    }
}

/// The eight squares of a rank, file a first.
pub open spec fn rank_text(board: Seq<Option<Piece>>, rank: int) -> Seq<char> {
    Seq::new(8, |f: int| square_char(board[square_index(f, rank)]))
}

/// The top `n` ranks, rank 8 first, separated by '/'.
pub open spec fn top_ranks(board: Seq<Option<Piece>>, n: int) -> Seq<char>
    decreases n,
{
    if n <= 1 {
        rank_text(board, 7)
    } else {
        top_ranks(board, n - 1) + seq!['/'] + rank_text(board, 8 - n)
    }
}

/// The board field: ranks 8 to 1, runs of empty squares written as counts.
pub open spec fn board_text(board: Seq<Option<Piece>>) -> Seq<char> {
    compressed(top_ranks(board, 8))
}

/// The castling field: the remaining rights' letters, or '-' when none is left.
pub open spec fn castling_text(r: CastlingRights) -> Seq<char> {
    let t = white_rights_text(r) + black_rights_text(r);
    if t.len() == 0 {
        seq!['-']
    } else {
        t
    }
}

/// The letter of the side to move.
pub open spec fn side_char(c: Color) -> char {
    match c {
        Color::White => 'w',
        Color::Black => 'b',
    }
}

/// The position string: board, side to move, castling rights, '-' for the
/// en-passant square, which is never tracked, '0' in the half-move clock's
/// field, and the move counter. The clock field keeps the constant 0 so that
/// the string stays as other tools of this game already read it; the real
/// clock is `Game::half_time_moves`.
pub open spec fn fen_text(s: GameState) -> Seq<char> {
    board_text(s.board) + seq![' ', side_char(s.current_player), ' '] + castling_text(s.rights)
        + seq![' ', '-', ' ', '0', ' '] + decimal(s.moves as nat)
}

/// The board ranks, 8 to 1, with a letter or '1' for each square.
fn board_squares(board: &Board) -> (r: String)
    ensures
        r@ == top_ranks(board@, 8),
{
    let mut s = String::new();
    let mut k: usize = 0;
    while k < 8
        invariant
            k <= 8,
            k > 0 ==> s@ == top_ranks(board@, k as int),
            k == 0 ==> s@ == Seq::<char>::empty(),
        decreases 8 - k,
    {
        let rank = 7 - k;
        if k > 0 {
            push_char(&mut s, '/');
        }
        let ghost prefix = s@;
        let mut file: usize = 0;
        while file < 8
            invariant
                k < 8,
                rank == 7 - k,
                file <= 8,
                s@ == prefix + rank_text(board@, rank as int).take(file as int),
            decreases 8 - file,
        {
            let c = match board[rank * 8 + file] {
                Some(piece) => piece.get_fen_char(),
                None => '1',
            };
            push_char(&mut s, c);
            proof {
                assert(rank_text(board@, rank as int).take(file + 1) =~= rank_text(
                    board@,
                    rank as int,
                ).take(file as int).push(c));
            }
            file = file + 1;
        }
        proof {
            assert(rank_text(board@, rank as int).take(8) =~= rank_text(board@, rank as int));
            if k == 0 {
                assert(s@ =~= top_ranks(board@, 1));
            } else {
                assert(s@ =~= top_ranks(board@, k + 1));
            }
        }
        k = k + 1;
    }
    s
}

/// The castling field of the position string.
fn castling_string(r: &CastlingRights) -> (s: String)
    ensures
        s@ == castling_text(*r),
{
    let mut s = white_rights_string(r);
    let black = black_rights_string(r);
    s.append(black.as_str());
    if s.as_str().unicode_len() == 0 {
        let mut none = String::new();
        push_char(&mut none, '-');
        proof {
            assert(none@ =~= castling_text(*r));
        }
        none
    } else {
        s
    }
}

/// The position string of a game.
pub fn get_fen(game: &Game) -> (r: String)
    ensures
        r@ == fen_text(game@),
{
    let mut fen = compress_ones(board_squares(&game.board));
    let color = match game.current_player {
        Color::White => 'w',
        Color::Black => 'b',
    };
    push_char(&mut fen, ' ');
    push_char(&mut fen, color);
    push_char(&mut fen, ' ');
    let rights = castling_string(&game.rights);
    fen.append(rights.as_str());
    push_char(&mut fen, ' ');
    push_char(&mut fen, '-');
    push_char(&mut fen, ' ');
    push_char(&mut fen, '0');
    push_char(&mut fen, ' ');
    push_decimal(&mut fen, game.moves);
    proof {
        assert(fen@ =~= fen_text(game@));
    }
    fen
}

} // verus!
