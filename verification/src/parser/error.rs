//! What the parser reports.

use vstd::prelude::*;

verus! {

/// The one failure of the parser: the tokens do not fit the grammar.
#[derive(Clone, Copy, Debug, PartialEq, Eq, Structural)]
pub enum ParseError {
    UnexpectedToken,
}

impl ParseError {
    /// The text of the error.
    pub fn to_string(&self) -> (r: String)
        ensures
            r@ == "Unexpected token"@,
    {
        String::from_str("Unexpected token")
    }
}

} // verus!
