//! The crate's error type.

use vstd::prelude::*;

verus! {

/// Why an operation failed.
///
/// `Config` marks an invalid startup parameter (fatal before the cycle loop
/// starts), `Data` a malformed or failed upstream response (skip the cycle),
/// `Execution` an invalid unwind sizing (skip the cycle), and `Io` a local
/// resource failure (logged, the loop continues).
#[derive(Debug, Clone, PartialEq, Eq)]
pub enum AegisError {
    Config(String),
    Execution(String),
    Io(String),
    Data(String),
}

impl AegisError {
    /// The human-readable rendering: a kind prefix followed by the message.
    pub fn text(&self) -> (r: String)
        ensures
            r@ == match self {
                AegisError::Config(m) => "config error: "@ + m@,
                AegisError::Execution(m) => "execution error: "@ + m@,
                AegisError::Io(m) => "io error: "@ + m@,
                AegisError::Data(m) => "data error: "@ + m@,
            },
    {
        match self {
            AegisError::Config(m) => "config error: ".to_owned().concat(m.as_str()),
            AegisError::Execution(m) => "execution error: ".to_owned().concat(m.as_str()),
            AegisError::Io(m) => "io error: ".to_owned().concat(m.as_str()),
            AegisError::Data(m) => "data error: ".to_owned().concat(m.as_str()),
        }
    }
}

} // verus!
