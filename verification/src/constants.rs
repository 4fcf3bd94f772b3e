//! Status words and fixed offsets of the command-frame layout.

use vstd::prelude::*;

verus! {

/// Status word reported to the host at the end of every exchange.
#[derive(Debug, Clone, Copy, PartialEq, Eq)]
pub enum ApduError {
    Success,
    WrongLength,
    OutputBufferTooSmall,
    DataInvalid,
    CommandNotAllowed,
    InvalidP1P2,
    InsNotSupported,
    ClaNotSupported,
}

/// Wire value of a status word, as a 16-bit big-endian quantity.
pub open spec fn spec_code(e: ApduError) -> u16 {
    match e {
        ApduError::Success => 0x9000,
        ApduError::WrongLength => 0x6700,
        ApduError::OutputBufferTooSmall => 0x6983,
        ApduError::DataInvalid => 0x6984,
        ApduError::CommandNotAllowed => 0x6986,
        ApduError::InvalidP1P2 => 0x6B00,
        ApduError::InsNotSupported => 0x6D00,
        ApduError::ClaNotSupported => 0x6E00,
    }
}

impl ApduError {
    /// The wire value of this status word.
    pub fn code(&self) -> (r: u16)
        ensures
            r == spec_code(*self),
    {
        match self {
            ApduError::Success => 0x9000,
            ApduError::WrongLength => 0x6700,
            ApduError::OutputBufferTooSmall => 0x6983,
            ApduError::DataInvalid => 0x6984,
            ApduError::CommandNotAllowed => 0x6986,
            ApduError::InvalidP1P2 => 0x6B00,
            ApduError::InsNotSupported => 0x6D00,
            ApduError::ClaNotSupported => 0x6E00,
        }
    }
}

/// Minimum number of received bytes for a frame to be well formed:
/// class, instruction, the two parameter bytes and the data-length byte.
pub const APDU_MIN_LENGTH: u32 = 5;

/// Offset of the class byte in a command frame.
pub const APDU_INDEX_CLA: usize = 0;

/// Offset of the instruction byte in a command frame.
pub const APDU_INDEX_INS: usize = 1;

/// Offset of the first parameter byte in a command frame.
pub const APDU_INDEX_P1: usize = 2;

/// Offset of the second parameter byte in a command frame.
pub const APDU_INDEX_P2: usize = 3;

/// Offset of the data-length byte in a command frame.
pub const APDU_INDEX_LEN: usize = 4;

/// Offset of the first data byte in a command frame.
pub const APDU_INDEX_DATA: usize = 5;

} // verus!
