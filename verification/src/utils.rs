//! Bounds-checked access to the caller-owned frame buffer.
//!
//! The reader validates the received length against the minimum header size
//! and exposes the header fields and the data span; the writer accumulates
//! response bytes into the same physical buffer behind a remaining-capacity
//! check and finally appends the 2-byte big-endian status word.

use vstd::prelude::*;

use crate::constants::{
    spec_code, ApduError, APDU_INDEX_CLA, APDU_INDEX_DATA, APDU_INDEX_INS, APDU_INDEX_LEN,
    APDU_INDEX_P1, APDU_INDEX_P2, APDU_MIN_LENGTH,
};

verus! {

/// Validated view descriptor over a received command frame.
///
/// The buffer itself stays owned by the caller and is passed to every
/// accessor; the descriptor only records the declared received length.
#[derive(Debug, Clone, Copy, PartialEq, Eq, Structural)]
pub struct ApduBufferRead {
    pub rx: u32,
}

impl ApduBufferRead {
    /// The descriptor fits the given buffer: the declared received length
    /// covers at least the frame header and no more than the buffer.
    pub open spec fn wf(&self, buf: Seq<u8>) -> bool {
        APDU_MIN_LENGTH <= self.rx && self.rx <= buf.len()
    }

    /// The declared received length.
    pub open spec fn spec_rx(&self) -> u32 {
        self.rx
    }

    /// Validate a raw buffer and declared received length.
    ///
    /// Fails with a wrong-length error if fewer bytes than the minimum
    /// header size were received or the declared length exceeds the buffer.
    pub fn new(buffer: &Vec<u8>, rx: u32) -> (r: Result<ApduBufferRead, ApduError>)
        ensures
            r is Ok <==> APDU_MIN_LENGTH <= rx && rx <= buffer@.len(),
            r matches Ok(a) ==> a.rx == rx && a.wf(buffer@),
            r matches Err(e) ==> e == ApduError::WrongLength,
    {
        if rx < APDU_MIN_LENGTH {
            return Err(ApduError::WrongLength);
        }
        if (rx as usize) > buffer.len() {
            return Err(ApduError::WrongLength);
        }
        Ok(ApduBufferRead { rx })
    }

    /// The class byte.
    pub fn cla(&self, buffer: &Vec<u8>) -> (r: u8)
        requires
            self.wf(buffer@),
        ensures
            r == buffer@[APDU_INDEX_CLA as int],
    {
        buffer[APDU_INDEX_CLA]
    }

    /// The instruction byte.
    pub fn ins(&self, buffer: &Vec<u8>) -> (r: u8)
        requires
            self.wf(buffer@),
        ensures
            r == buffer@[APDU_INDEX_INS as int],
    {
        buffer[APDU_INDEX_INS]
    }

    /// The first parameter byte.
    pub fn p1(&self, buffer: &Vec<u8>) -> (r: u8)
        requires
            self.wf(buffer@),
        ensures
            r == buffer@[APDU_INDEX_P1 as int],
    {
        buffer[APDU_INDEX_P1]
    }

    /// The second parameter byte.
    pub fn p2(&self, buffer: &Vec<u8>) -> (r: u8)
        requires
            self.wf(buffer@),
        ensures
            r == buffer@[APDU_INDEX_P2 as int],
    {
        buffer[APDU_INDEX_P2]
    }

    /// The declared received length.
    pub fn rx(&self) -> (r: u32)
        ensures
            r == self.rx,
    {
        self.rx
    }

    /// Where the declared data bytes sit: the span `[start, end)` of the
    /// frame data, available only when it lies within the received bytes.
    pub open spec fn spec_payload(&self, buf: Seq<u8>) -> Result<(usize, usize), ApduError> {
        if APDU_INDEX_DATA + buf[APDU_INDEX_LEN as int] <= self.rx {
            Ok((APDU_INDEX_DATA, (APDU_INDEX_DATA + buf[APDU_INDEX_LEN as int]) as usize))
        } else {
            Err(ApduError::WrongLength)
        }
    }

    /// The span of the frame data: exactly the declared data length,
    /// rejected when it would reach beyond the received bytes.
    pub fn payload(&self, buffer: &Vec<u8>) -> (r: Result<(usize, usize), ApduError>)
        requires
            self.wf(buffer@),
        ensures
            r == self.spec_payload(buffer@),
    {
        let data_len = buffer[APDU_INDEX_LEN] as u32;
        if 5 + data_len <= self.rx {
            Ok((5, (5 + data_len) as usize))
        } else {
            Err(ApduError::WrongLength)
        }
    }
}

/// Write cursor that accumulates response bytes at the start of the
/// caller-owned frame buffer.
#[derive(Debug, Clone, Copy, PartialEq, Eq, Structural)]
pub struct ApduBufferWrite {
    pub written: usize,
}

impl ApduBufferWrite {
    /// Number of payload bytes written so far.
    pub open spec fn spec_written(&self) -> usize {
        self.written
    }

    /// A fresh writer with nothing written.
    pub fn new() -> (r: ApduBufferWrite)
        ensures
            r.written == 0,
    {
        ApduBufferWrite { written: 0 }
    }

    /// Append one response byte, failing with a capacity error when the
    /// buffer has no room left.
    pub fn write_byte(&mut self, buffer: &mut Vec<u8>, b: u8) -> (r: Result<(), ApduError>)
        ensures
            final(buffer)@.len() == old(buffer)@.len(),
            r is Ok <==> old(self).written < old(buffer)@.len(),
            r is Ok ==> final(self).written == old(self).written + 1 && final(buffer)@ == old(
                buffer,
            )@.update(old(self).written as int, b),
            r is Err ==> *final(self) == *old(self) && final(buffer)@ == old(buffer)@ && r == Err::<
                (),
                ApduError,
            >(ApduError::OutputBufferTooSmall),
    {
        if self.written < buffer.len() {
            buffer[self.written] = b;
            self.written = self.written + 1;
            Ok(())
        } else {
            Err(ApduError::OutputBufferTooSmall)
        }
    }

    /// Append the 2-byte big-endian status word for `err` (success when
    /// `err` is absent) and report the total response length.
    ///
    /// Fails with a capacity error, leaving the buffer unchanged, when even
    /// the status word does not fit after the written bytes.
    pub fn close(self, buffer: &mut Vec<u8>, err: Option<ApduError>) -> (r: Result<
        usize,
        ApduError,
    >)
        ensures
            final(buffer)@.len() == old(buffer)@.len(),
            ({
                let status = spec_code(
                    match err {
                        Some(e) => e,
                        None => ApduError::Success,
                    },
                );
                &&& (r is Ok <==> self.written + 2 <= old(buffer)@.len())
                &&& r matches Ok(n) ==> n == self.written + 2 && final(buffer)@ == old(
                    buffer,
                )@.update(self.written as int, (status >> 8) as u8).update(
                    self.written as int + 1,
                    status as u8,
                )
                &&& r is Err ==> final(buffer)@ == old(buffer)@ && r == Err::<usize, ApduError>(
                    ApduError::OutputBufferTooSmall,
                )
            }),
    {
        let status = match err {
            Some(e) => e.code(),
            None => ApduError::Success.code(),
        };
        if buffer.len() >= 2 && self.written <= buffer.len() - 2 {
            buffer[self.written] = (status >> 8) as u8;
            buffer[self.written + 1] = status as u8;
            Ok(self.written + 2)
        } else {
            Err(ApduError::OutputBufferTooSmall)
        }
    }
}

} // verus!
