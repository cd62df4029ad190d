//! The firmware-version query and the decoding of its reply.
use vstd::prelude::*;

use crate::error::Error;

verus! {

/// Version details that the device reports about itself.
#[derive(Debug)]
pub struct LedgerFirmwareVersion {
    pub features: u8,
    pub architecture: u8,
    pub firmware_version: [u8; 3],
    pub loader_version: [u8; 2],
}

impl LedgerFirmwareVersion {
    /// Decodes the reply to a firmware-version query: byte 0 is the feature
    /// flags, byte 1 the architecture, bytes 2..5 the firmware version and
    /// bytes 5..7 the loader version. Anything after byte 7 is ignored.
    pub fn try_from(data: &[u8]) -> (r: Result<LedgerFirmwareVersion, Error>)
        ensures
            data@.len() < 7 <==> r is Err,
            r is Err ==> r->Err_0 is InvalidLedgerResponse,
            r is Ok ==> {
                let v = r->Ok_0;
                &&& v.features == data@[0]
                &&& v.architecture == data@[1]
                &&& v.firmware_version@ == data@.subrange(2, 5)
                &&& v.loader_version@ == data@.subrange(5, 7)
            },
    {
        if data.len() < 7 {
            return Err(Error::InvalidLedgerResponse);
        }
        let v = LedgerFirmwareVersion {
            features: data[0],
            architecture: data[1],
            firmware_version: [data[2], data[3], data[4]],
            loader_version: [data[5], data[6]],
        };
        assert(v.firmware_version@ =~= data@.subrange(2, 5));
        assert(v.loader_version@ =~= data@.subrange(5, 7));
        Ok(v)
    }
}

} // verus!
