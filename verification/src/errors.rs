use vstd::prelude::*;

verus! {

/// Errors that the marketplace instructions return.
#[derive(Clone, Copy, Debug, PartialEq, Eq, Structural)]
pub enum Errors {
    InvalidName,
    MathOverflow,
}

impl Errors {
    /// The message that the program reports with the error.
    pub fn msg(&self) -> (r: &'static str)
        ensures
            *self == Errors::InvalidName ==> r@ == "Name is empty or too long"@,
            *self == Errors::MathOverflow ==> r@ == "A mathetical overflow was detected"@,
    {
        match self {
            Errors::InvalidName => "Name is empty or too long",
            Errors::MathOverflow => "A mathetical overflow was detected",
        }
    }
}

} // verus!
