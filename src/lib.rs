//! Requests extended public keys and firmware details from a Ledger
//! hardware wallet: the bytes of each request, and the decoding of each
//! reply, are verified against their wire layout. Talking to the device
//! itself is left to the caller.
pub mod error;
pub mod firmware;
pub mod key;
pub mod request;
pub mod response;

pub use error::Error;
pub use firmware::LedgerFirmwareVersion;
pub use key::{assemble_key, extended_key_from_parts, key_from_response, ExtendedKey};
pub use request::{firmware_request, key_request, CommandEnvelope};
pub use response::KeyRequestAnswer;
