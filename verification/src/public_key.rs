//! Handler capability for the address-retrieval instruction.

use vstd::prelude::*;

use crate::bip32::BIP32Path;
use crate::constants::{ApduError, APDU_INDEX_INS, APDU_INDEX_P2};
use crate::crypto::{spec_curve_from, Curve};
use crate::dispatcher::{ApduHandler, FLAG_DEFERRED_RESPONSE, INS_GET_ADDRESS};
use crate::utils::ApduBufferRead;

verus! {

/// Largest number of derivation-path components the address handler
/// accepts.
pub const MAX_PATH_COMPONENTS: usize = 10;

/// Address retrieval: validates the instruction, the curve selector and
/// the derivation path carried in the frame data.
///
/// Key generation itself is performed by an external collaborator; once
/// the request is fully validated the handler defers the response to the
/// caller through the output flags word.
pub struct GetAddress;

impl ApduHandler for GetAddress {
    /// Outcome of the address handler: instruction and curve selector are
    /// checked first, then the data span must lie within the received
    /// bytes and hold a well-formed derivation path; a valid request is
    /// deferred to the external key-generation collaborator.
    open spec fn spec_handle(buf: Seq<u8>, rx: u32) -> (u32, Option<ApduError>) {
        if buf[APDU_INDEX_INS as int] != INS_GET_ADDRESS {
            (0, Some(ApduError::InsNotSupported))
        } else if spec_curve_from(buf[APDU_INDEX_P2 as int]) is None {
            (0, Some(ApduError::InvalidP1P2))
        } else if !(5 + buf[4] <= rx) {
            (0, Some(ApduError::WrongLength))
        } else if BIP32Path::<MAX_PATH_COMPONENTS>::spec_read(
            buf.subrange(5, 5 + buf[4]),
        ) is Err {
            (0, Some(ApduError::DataInvalid))
        } else {
            (FLAG_DEFERRED_RESPONSE, None)
        }
    }

    fn handle(flags: &mut u32, buffer: &Vec<u8>, read: &ApduBufferRead) -> (r: Option<ApduError>) {
        *flags = 0;
        if read.ins(buffer) != INS_GET_ADDRESS {
            return Some(ApduError::InsNotSupported);
        }
        let _curve = match Curve::try_from(read.p2(buffer)) {
            Some(c) => c,
            None => {
                return Some(ApduError::InvalidP1P2);
            },
        };
        let (start, end) = match read.payload(buffer) {
            Ok(span) => span,
            Err(_) => {
                return Some(ApduError::WrongLength);
            },
        };
        let _path = match BIP32Path::<MAX_PATH_COMPONENTS>::read(&buffer.as_slice()[start..end]) {
            Ok(p) => p,
            Err(_) => {
                return Some(ApduError::DataInvalid);
            },
        };
        *flags = FLAG_DEFERRED_RESPONSE;
        None
    }
}

} // verus!
