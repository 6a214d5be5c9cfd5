use vstd::prelude::*;

verus! {

/// A terminal input error: the user supplied text that cannot be turned
/// into the value a command needs. Distinct from any remote failure; it is
/// raised before a remote call would be attempted.
#[derive(Clone, Copy, Debug, PartialEq, Eq, Structural)]
pub enum InputError {
    /// A hash identifier was not a valid hexadecimal string.
    InvalidHex,
    /// The parameters of a raw call were not a valid JSON array literal.
    InvalidParamsJson,
}

impl InputError {
    /// A short description, for error reporting outside the library.
    pub fn message(&self) -> (r: String)
        ensures
            *self is InvalidHex ==> r@ == "invalid hex in hash identifier"@,
            *self is InvalidParamsJson ==> r@ == "failed to parse params as a JSON array"@,
    {
        match self {
            InputError::InvalidHex => "invalid hex in hash identifier".to_owned(),
            InputError::InvalidParamsJson => "failed to parse params as a JSON array".to_owned(),
        }
    }
}

} // verus!
