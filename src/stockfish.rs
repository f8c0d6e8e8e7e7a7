use vstd::prelude::*;
use crate::board::Pos;
use crate::input::{parse_input, parse_move};

verus! {

/// A move proposed by a move-suggestion service, as its two square texts.
pub struct NextMove {
    pub from: String,
    pub to: String,
}

impl NextMove {
    /// The proposed move as two squares.
    pub fn to_move(&self) -> (r: Result<(Pos, Pos), &'static str>)
        ensures
            match r {
                Ok(m) => parse_move(seq![self.from@, self.to@]) == Some(m),
                Err(e) => parse_move(seq![self.from@, self.to@]) is None && e@ == "Invalid input"@,
            },
    {
        let parts = vec![self.from.as_str(), self.to.as_str()];
        proof {
            assert(parts@.map_values(|s: &str| s@) =~= seq![self.from@, self.to@]);
        }
        parse_input(parts)
    }
}

} // verus!
