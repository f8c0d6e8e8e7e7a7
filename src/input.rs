use vstd::prelude::*;
use crate::board::Pos;

verus! {

/// A square read from text: its first character is the file, its second a
/// decimal digit giving the rank; anything after is ignored.
pub open spec fn parse_square(s: Seq<char>) -> Option<Pos> {
    if s.len() >= 2 && '0' <= s[1] <= '9' {
        Some((s[0], (s[1] as int - '0' as int) as i32))
    } else {
        None
    }
}

/// A move read from exactly two square texts, origin first.
pub open spec fn parse_move(parts: Seq<Seq<char>>) -> Option<(Pos, Pos)> {
    if parts.len() == 2 && parse_square(parts[0]) is Some && parse_square(parts[1]) is Some {
        Some((parse_square(parts[0]).unwrap(), parse_square(parts[1]).unwrap()))
    } else {
        None
    }
}

/// Reads a square from text such as "e2".
fn read_square(text: &str) -> (r: Option<Pos>)
    ensures
        r == parse_square(text@),
{
    if text.unicode_len() < 2 {
        return None;
    }
    let file = text.get_char(0);
    let digit = text.get_char(1);
    if '0' <= digit && digit <= '9' {
        Some((file, digit as i32 - '0' as i32))
    } else {
        None
    }
}

/// Reads a move from its two halves, e.g. `["e2", "e4"]`.
pub fn parse_input(input: Vec<&str>) -> (r: Result<(Pos, Pos), &'static str>)
    ensures
        match r {
            Ok(m) => parse_move(input@.map_values(|s: &str| s@)) == Some(m),
            Err(e) => parse_move(input@.map_values(|s: &str| s@)) is None && e@ == "Invalid input"@,
        },
{
    let ghost parts = input@.map_values(|s: &str| s@);
    if input.len() != 2 {
        return Err("Invalid input");
    }
    let from = read_square(input[0]);
    let to = read_square(input[1]);
    match (from, to) {
        (Some(from), Some(to)) => Ok((from, to)),
        _ => Err("Invalid input"),
    }
}

} // verus!
