//! The one error type of the library.
use vstd::prelude::*;

use bitcoin::secp256k1::Error as CurveError;

verus! {

/// The error that secp256k1 reports for a public key it cannot parse.
#[verifier::external_type_specification]
#[verifier::external_body]
pub struct ExCurveError(CurveError);

/// Everything that can go wrong while talking to the device.
#[derive(Debug)]
pub enum Error {
    /// Ledger devices only support derivation of depth <= 10
    DerivationPathTooLong,
    /// The ledger sent a response we couldn't parse
    InvalidLedgerResponse,
    /// Secp256k1 error
    Secp256k1Error(CurveError),
}

impl From<CurveError> for Error {
    fn from(e: CurveError) -> (r: Error)
        ensures
            r == Error::Secp256k1Error(e),
    {
        Error::Secp256k1Error(e)
    }
}

impl vstd::std_specs::convert::FromSpecImpl<CurveError> for Error {
    open spec fn obeys_from_spec() -> bool {
        true
    }

    open spec fn from_spec(e: CurveError) -> Error {
        Error::Secp256k1Error(e)
    }
}

} // verus!
