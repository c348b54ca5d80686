//! Result codes of the engine and the error kinds they stand for.

use vstd::prelude::*;

verus! {

/// What went wrong inside the engine, as told by its result code.
#[derive(Debug, Clone, Copy, PartialEq, Eq, Structural)]
pub enum Error {
    /// An argument of the call was not valid.
    InvalidArgument,
    /// The engine ran out of memory.
    OutOfMemory,
    /// What was asked for is not supported.
    NotSupported,
    /// An error inside the engine.
    Internal,
    /// A file was not found.
    FileNotFound,
    /// JSON text was not well-formed.
    InvalidJson,
    /// A manifest was not valid.
    InvalidManifest,
    /// A nonzero code outside the documented range, kept as it came.
    Unknown(i32),
}

/// The outcome that a result code stands for.
///
/// Zero is the only code that means success. The codes one to seven each name
/// one failure. Every other code is reported as [`Error::Unknown`] together
/// with the code itself.
pub open spec fn outcome(code: i32) -> Result<(), Error> {
    if code == 0 {
        Ok(())
    } else if code == 1 {
        Err(Error::InvalidArgument)
    } else if code == 2 {
        Err(Error::OutOfMemory)
    } else if code == 3 {
        Err(Error::NotSupported)
    } else if code == 4 {
        Err(Error::Internal)
    } else if code == 5 {
        Err(Error::FileNotFound)
    } else if code == 6 {
        Err(Error::InvalidJson)
    } else if code == 7 {
        Err(Error::InvalidManifest)
    } else {
        Err(Error::Unknown(code))
    }
}

/// Two codes never stand for the same outcome, so the code can be told from
/// the outcome.
pub proof fn lemma_outcome_injective(a: i32, b: i32)
    requires
        outcome(a) == outcome(b),
    ensures
        a == b,
{
}

/// Gives the outcome that the result code of an engine call stands for.
pub fn check(code: i32) -> (r: Result<(), Error>)
    ensures
        r == outcome(code),
        r is Ok <==> code == 0,
{
    match code {
        0 => Ok(()),
        1 => Err(Error::InvalidArgument),
        2 => Err(Error::OutOfMemory),
        3 => Err(Error::NotSupported),
        4 => Err(Error::Internal),
        5 => Err(Error::FileNotFound),
        6 => Err(Error::InvalidJson),
        7 => Err(Error::InvalidManifest),
        other => Err(Error::Unknown(other)),
    }
}

} // verus!
