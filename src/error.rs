use vstd::prelude::*;

verus! {

/// Why a request to the game service did not yield a usable answer.
#[derive(Clone, Copy, Debug, PartialEq, Eq, Structural)]
pub enum SessionError {
    /// The request never got an answer: connection refused, timeout.
    Transport,
    /// The service answered with a status code that is not a success.
    Status(u16),
    /// The answer's body did not have the expected shape.
    Decode,
}

} // verus!
