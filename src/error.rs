use vstd::prelude::*;

verus! {

/// Why an authentication or authorization step failed.
#[derive(Debug, Clone, Copy, PartialEq, Eq, Structural)]
pub enum AuthError {
    /// The hashing primitive could not run, or a stored hash is malformed.
    Hashing,
    /// A signing or verification key could not be read or parsed.
    KeyUnavailable,
    /// Signing the claims failed, or the token's time window cannot be formed.
    Encoding,
    /// A token is malformed, badly signed or expired.
    InvalidToken,
    /// The caller presented no usable credential.
    Unauthenticated,
}

/// The body of an error response: a single message.
pub struct Errors {
    pub error: String,
}

impl Errors {
    /// An error body carrying `message`.
    pub fn new(message: &str) -> (r: Errors)
        ensures
            r.error@ == message@,
    {
        Errors { error: message.to_owned() }
    }
}

} // verus!
