use vstd::prelude::*;

verus! {

/// The errors that the column logic can report.
#[derive(Debug, Clone, Copy, PartialEq, Eq, Structural)]
pub enum LsError {
    /// A column definition was asked for a field number that names no column.
    BadFdef,
    /// A rendered row was asked for a field number that names no column.
    BadField,
    /// A colour was asked for a column kind that has no colour.
    BadColdef,
}

impl LsError {
    /// The message that goes with the error.
    pub fn message(&self) -> (r: &'static str)
        ensures
            r@ == self.spec_message(),
    {
        match self {
            LsError::BadFdef => "Bad Fdef!",
            LsError::BadField => "Bad field",
            LsError::BadColdef => "Bad coldef",
        }
    }

    pub open spec fn spec_message(&self) -> Seq<char> {
        match self {
            LsError::BadFdef => "Bad Fdef!"@,
            LsError::BadField => "Bad field"@,
            LsError::BadColdef => "Bad coldef"@,
        }
    }
}

} // verus!
