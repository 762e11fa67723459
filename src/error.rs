use vstd::prelude::*;

verus! {

/// The one way in which building an `Email` fails.
#[derive(Debug, Clone, Copy, PartialEq, Eq, Structural)]
pub enum InvalidEmailError {
    /// The input is not a syntactically valid email address.
    ParseError,
}

impl InvalidEmailError {
    /// The human-readable description of the error.
    pub fn message(&self) -> (r: &'static str)
        ensures
            r@ == "Parse error"@,
    {
        "Parse error"
    }
}

} // verus!
