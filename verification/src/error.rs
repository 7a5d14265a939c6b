//! Results of the driver's operations.

use vstd::prelude::*;
use vstd::std_specs::convert::FromSpecImpl;

verus! {

/// DS interface error. `E` is the error type of the keyed-hash engine.
#[derive(Debug, PartialEq, Eq)]
pub enum Error<E> {
    /// Supplied parameters are invalid.
    InvalidParam,
    /// The keyed-hash engine refused its configuration.
    Hmac(E),
    /// The parameter block decrypted with invalid padding.
    InvalidPadding,
    /// The parameter block decrypted with valid padding and a wrong digest.
    InvalidDigest,
    /// An engine stayed busy for as many samples as the bound allows.
    Timeout,
}

impl<E> From<E> for Error<E> {
    fn from(value: E) -> (e: Self) {
        Error::Hmac(value)
    }
}

impl<E> FromSpecImpl<E> for Error<E> {
    open spec fn obeys_from_spec() -> bool {
        true
    }

    open spec fn from_spec(value: E) -> Self {
        Error::Hmac(value)
    }
}

/// The three ways a non-blocking operation can answer.
#[derive(Debug, PartialEq, Eq)]
pub enum Poll<E> {
    /// The operation is complete.
    Ready,
    /// The operation is not complete yet and may be asked again.
    WouldBlock,
    /// The operation has failed.
    Failed(E),
}

} // verus!
