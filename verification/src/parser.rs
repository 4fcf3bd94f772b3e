//! Primitive decoders shared by the operation formats.
//!
//! Every decoder walks a caller-owned byte buffer with an index cursor and
//! returns borrowed views as offset spans into that buffer, so no decoding
//! step allocates or copies payload bytes.  A decoder returns the decoded
//! value together with the cursor position of the remaining input, or the
//! failure together with the cursor position at which the failing element
//! began.

use vstd::prelude::*;

use crate::crypto::{spec_curve_from, Curve};

verus! {

/// Failure of a binary decoder.
#[derive(Debug, Clone, Copy, PartialEq, Eq)]
pub enum ParserError {
    /// The input ended before the element under the cursor was complete.
    UnexpectedBufferEnd,
    /// An entrypoint tag byte that selects no known entrypoint.
    InvalidContractName,
    /// A public-key-hash curve tag that selects no known curve.
    InvalidPubkeyEncoding,
    /// A contract-identifier tag that selects no known address form.
    InvalidAddress,
}

/// Result of a decoder: value and new cursor, or failure and failing cursor.
pub type PResult<T> = Result<(T, usize), (ParserError, usize)>;

/// Half-open byte range `[start, end)` into the caller-owned input buffer.
#[derive(Debug, Clone, Copy, PartialEq, Eq, Structural)]
pub struct Span {
    pub start: usize,
    pub end: usize,
}

/// Span `[start, end)` written from mathematical offsets.
pub open spec fn spec_span(start: int, end: int) -> Span {
    Span { start: start as usize, end: end as usize }
}

/// Relates an executable decoder result to its mathematical counterpart.
pub open spec fn res_matches<T>(
    r: Result<(T, usize), (ParserError, usize)>,
    s: Result<(T, int), (ParserError, int)>,
) -> bool {
    match r {
        Ok((v, cursor)) => s == Ok::<(T, int), (ParserError, int)>((v, cursor as int)),
        Err((e, at)) => s == Err::<(T, int), (ParserError, int)>((e, at as int)),
    }
}

/// Index of the first byte at or after `i` whose continuation bit is clear,
/// if the input holds such a byte.
pub open spec fn spec_first_stop(s: Seq<u8>, i: int) -> Option<int>
    decreases s.len() - i,
{
    if i < 0 || i >= s.len() {
        None
    } else if s[i] & 0x80 == 0 {
        Some(i)
    } else {
        spec_first_stop(s, i + 1)
    }
}

/// An arbitrary-precision integer: the consumed byte span and, in signed
/// mode, the sign read from the first byte.  The numeric value is never
/// evaluated at this layer.
#[derive(Debug, Clone, Copy, PartialEq, Eq, Structural)]
pub struct Zarith {
    pub is_negative: Option<bool>,
    pub bytes: Span,
}

/// Mathematical counterpart of [`Zarith::from_bytes`]: consume bytes up to
/// and including the first byte whose continuation bit (0x80) is clear; in
/// signed mode the sign is bit 0x40 of the first byte.
pub open spec fn spec_zarith_from(s: Seq<u8>, off: int, signed: bool) -> Result<
    (Zarith, int),
    (ParserError, int),
> {
    match spec_first_stop(s, off) {
        Some(j) => Ok(
            (
                Zarith {
                    is_negative: if signed {
                        Some(s[off] & 0x40 != 0)
                    } else {
                        None
                    },
                    bytes: spec_span(off, j + 1),
                },
                j + 1,
            ),
        ),
        None => Err((ParserError::UnexpectedBufferEnd, off)),
    }
}

impl Zarith {
    /// Decode an arbitrary-precision integer starting at `offset`.
    ///
    /// Exhausting the input before a byte with a clear continuation bit is
    /// an incomplete-input failure; a stream whose first clear bit sits at
    /// relative position `k` consumes exactly `k + 1` bytes.
    pub fn from_bytes(input: &[u8], offset: usize, signed: bool) -> (r: PResult<Zarith>)
        ensures
            res_matches(r, spec_zarith_from(input@, offset as int, signed)),
    {
        let n = input.len();
        let mut j = offset;
        while j < n && input[j] & 0x80 != 0
            invariant
                offset <= j,
                n == input@.len(),
                spec_first_stop(input@, offset as int) == spec_first_stop(input@, j as int),
            decreases n - j,
        {
            j = j + 1;
        }
        if j >= n {
            Err((ParserError::UnexpectedBufferEnd, offset))
        } else {
            let is_negative = if signed {
                Some(input[offset] & 0x40 != 0)
            } else {
                None
            };
            Ok((Zarith { is_negative, bytes: Span { start: offset, end: j + 1 } }, j + 1))
        }
    }
}

/// Mathematical counterpart of [`boolean`]: one byte, nonzero meaning true.
pub open spec fn spec_boolean_from(s: Seq<u8>, off: int) -> Result<(bool, int), (ParserError, int)> {
    if 0 <= off < s.len() {
        Ok((s[off] != 0, off + 1))
    } else {
        Err((ParserError::UnexpectedBufferEnd, off))
    }
}

/// Decode a boolean flag byte: any nonzero byte reads as true.
pub fn boolean(input: &[u8], offset: usize) -> (r: PResult<bool>)
    ensures
        res_matches(r, spec_boolean_from(input@, offset as int)),
{
    if offset < input.len() {
        Ok((input[offset] != 0, offset + 1))
    } else {
        Err((ParserError::UnexpectedBufferEnd, offset))
    }
}

/// Mathematical counterpart of [`public_key_hash`]: a curve tag byte
/// followed by a 20-byte hash.
pub open spec fn spec_public_key_hash_from(s: Seq<u8>, off: int) -> Result<
    ((Curve, Span), int),
    (ParserError, int),
> {
    if !(0 <= off < s.len()) {
        Err((ParserError::UnexpectedBufferEnd, off))
    } else {
        match spec_curve_from(s[off]) {
            None => Err((ParserError::InvalidPubkeyEncoding, off)),
            Some(curve) => if off + 21 <= s.len() {
                Ok(((curve, spec_span(off + 1, off + 21)), off + 21))
            } else {
                Err((ParserError::UnexpectedBufferEnd, off))
            },
        }
    }
}

/// Decode a public-key hash: a curve tag byte and a 20-byte hash span.
pub fn public_key_hash(input: &[u8], offset: usize) -> (r: PResult<(Curve, Span)>)
    ensures
        res_matches(r, spec_public_key_hash_from(input@, offset as int)),
{
    if offset >= input.len() {
        return Err((ParserError::UnexpectedBufferEnd, offset));
    }
    let curve = match Curve::try_from(input[offset]) {
        Some(c) => c,
        None => {
            return Err((ParserError::InvalidPubkeyEncoding, offset));
        },
    };
    if input.len() - offset - 1 < 20 {
        return Err((ParserError::UnexpectedBufferEnd, offset));
    }
    Ok(((curve, Span { start: offset + 1, end: offset + 21 }), offset + 21))
}

/// Destination of a transfer: an implicit account (curve and key hash) or an
/// originated contract (hash followed by one padding byte on the wire).
#[derive(Debug, Clone, Copy, PartialEq, Eq, Structural)]
pub enum ContractID {
    Implicit(Curve, Span),
    Originated(Span),
}

/// Mathematical counterpart of [`ContractID::from_bytes`].
pub open spec fn spec_contract_id_from(s: Seq<u8>, off: int) -> Result<
    (ContractID, int),
    (ParserError, int),
> {
    if !(0 <= off < s.len()) {
        Err((ParserError::UnexpectedBufferEnd, off))
    } else if s[off] == 0x00 {
        match spec_public_key_hash_from(s, off + 1) {
            Ok(((curve, hash), cursor)) => Ok((ContractID::Implicit(curve, hash), cursor)),
            Err(e) => Err(e),
        }
    } else if s[off] == 0x01 {
        if off + 22 <= s.len() {
            Ok((ContractID::Originated(spec_span(off + 1, off + 21)), off + 22))
        } else {
            Err((ParserError::UnexpectedBufferEnd, off))
        }
    } else {
        Err((ParserError::InvalidAddress, off))
    }
}

impl ContractID {
    /// Decode a contract identifier starting at `offset`.
    pub fn from_bytes(input: &[u8], offset: usize) -> (r: PResult<ContractID>)
        ensures
            res_matches(r, spec_contract_id_from(input@, offset as int)),
    {
        if offset >= input.len() {
            return Err((ParserError::UnexpectedBufferEnd, offset));
        }
        match input[offset] {
            0x00 => {
                match public_key_hash(input, offset + 1) {
                    Ok(((curve, hash), cursor)) => Ok((ContractID::Implicit(curve, hash), cursor)),
                    Err(e) => Err(e),
                }
            },
            0x01 => {
                if input.len() - offset < 22 {
                    Err((ParserError::UnexpectedBufferEnd, offset))
                } else {
                    Ok((ContractID::Originated(Span { start: offset + 1, end: offset + 21 }), offset
                        + 22))
                }
            },
            _ => Err((ParserError::InvalidAddress, offset)),
        }
    }
}

/// Where a scan stops: nothing, when no byte at or after `off` has a clear
/// continuation bit; otherwise the first such position, with every byte
/// before it carrying the continuation bit.
pub proof fn lemma_first_stop_characterization(s: Seq<u8>, off: int)
    requires
        0 <= off,
    ensures
        spec_first_stop(s, off) is None <==> (forall|k: int|
            off <= k < s.len() ==> (s[k] & 0x80) != 0),
        spec_first_stop(s, off) matches Some(j) ==> off <= j < s.len() && (s[j] & 0x80) == 0 && (
        forall|k: int| off <= k < j ==> (s[k] & 0x80) != 0),
    decreases s.len() - off,
{
    if off < s.len() && s[off] & 0x80 != 0 {
        lemma_first_stop_characterization(s, off + 1);
    }
}

/// An arbitrary-precision integer decode fails with incomplete input
/// exactly when the continuation bit is never cleared at or after the
/// start; when the first clear bit sits at position `cursor - 1`, the
/// decode consumes exactly the bytes up to and including it.
pub proof fn lemma_zarith_consumption(s: Seq<u8>, off: int, signed: bool)
    requires
        0 <= off,
        s.len() <= usize::MAX,
    ensures
        (forall|k: int| off <= k < s.len() ==> (s[k] & 0x80) != 0) <==> spec_zarith_from(
            s,
            off,
            signed,
        ) == Err::<(Zarith, int), (ParserError, int)>((ParserError::UnexpectedBufferEnd, off)),
        spec_zarith_from(s, off, signed) matches Ok((z, cursor)) ==> off < cursor <= s.len()
            && (s[cursor - 1] & 0x80) == 0 && (forall|k: int|
            off <= k < cursor - 1 ==> (s[k] & 0x80) != 0) && z.bytes.start == off && z.bytes.end
            == cursor,
{
    lemma_first_stop_characterization(s, off);
}

/// How a scan behaves on a truncated input: a stop before the cut is kept,
/// one at or after the cut (or none at all) becomes none.
proof fn lemma_first_stop_take(s: Seq<u8>, off: int, m: int)
    requires
        0 <= off,
        0 <= m <= s.len(),
    ensures
        spec_first_stop(s, off) matches Some(j) ==> {
            &&& (j < m ==> spec_first_stop(s.take(m), off) == Some(j))
            &&& (j >= m ==> spec_first_stop(s.take(m), off) is None)
        },
        spec_first_stop(s, off) is None ==> spec_first_stop(s.take(m), off) is None,
    decreases s.len() - off,
{
    lemma_first_stop_characterization(s, off);
    if off < m && s[off] & 0x80 != 0 {
        lemma_first_stop_take(s, off + 1, m);
    }
}

/// How a successful integer decode behaves when the input is cut at `m`:
/// a cut at or past the consumed bytes changes nothing, a cut inside them
/// turns the decode into an incomplete-input failure.
pub proof fn lemma_zarith_take(s: Seq<u8>, off: int, m: int, signed: bool)
    requires
        0 <= off,
        0 <= m <= s.len(),
    ensures
        spec_zarith_from(s, off, signed) matches Ok((z, cursor)) ==> {
            &&& off < cursor <= s.len()
            &&& (m >= cursor ==> spec_zarith_from(s.take(m), off, signed) == spec_zarith_from(
                s,
                off,
                signed,
            ))
            &&& (m < cursor ==> spec_zarith_from(s.take(m), off, signed) == Err::<
                (Zarith, int),
                (ParserError, int),
            >((ParserError::UnexpectedBufferEnd, off)))
        },
{
    lemma_first_stop_characterization(s, off);
    lemma_first_stop_take(s, off, m);
}

/// How a successful boolean decode behaves when the input is cut at `m`.
pub proof fn lemma_boolean_take(s: Seq<u8>, off: int, m: int)
    requires
        0 <= off,
        0 <= m <= s.len(),
    ensures
        spec_boolean_from(s, off) matches Ok((b, cursor)) ==> {
            &&& off < cursor <= s.len()
            &&& (m >= cursor ==> spec_boolean_from(s.take(m), off) == spec_boolean_from(s, off))
            &&& (m < cursor ==> spec_boolean_from(s.take(m), off) == Err::<
                (bool, int),
                (ParserError, int),
            >((ParserError::UnexpectedBufferEnd, off)))
        },
{
}

/// How a successful public-key-hash decode behaves when the input is cut
/// at `m`.
pub proof fn lemma_public_key_hash_take(s: Seq<u8>, off: int, m: int)
    requires
        0 <= off,
        0 <= m <= s.len(),
    ensures
        spec_public_key_hash_from(s, off) matches Ok((v, cursor)) ==> {
            &&& off < cursor <= s.len()
            &&& (m >= cursor ==> spec_public_key_hash_from(s.take(m), off)
                == spec_public_key_hash_from(s, off))
            &&& (m < cursor ==> spec_public_key_hash_from(s.take(m), off) == Err::<
                ((Curve, Span), int),
                (ParserError, int),
            >((ParserError::UnexpectedBufferEnd, off)))
        },
{
}

/// How a successful contract-identifier decode behaves when the input is
/// cut at `m`.
pub proof fn lemma_contract_id_take(s: Seq<u8>, off: int, m: int)
    requires
        0 <= off,
        0 <= m <= s.len(),
    ensures
        spec_contract_id_from(s, off) matches Ok((v, cursor)) ==> {
            &&& off < cursor <= s.len()
            &&& (m >= cursor ==> spec_contract_id_from(s.take(m), off) == spec_contract_id_from(
                s,
                off,
            ))
            &&& (m < cursor ==> (spec_contract_id_from(s.take(m), off) matches Err(p) && p.0
                == ParserError::UnexpectedBufferEnd))
        },
{
    lemma_public_key_hash_take(s, off + 1, m);
}

/// Big-endian 32-bit value read at offset `i`.
pub open spec fn spec_be32(s: Seq<u8>, i: int) -> u32 {
    (s[i] * 0x1000000 + s[i + 1] * 0x10000 + s[i + 2] * 0x100 + s[i + 3]) as u32
}

/// Read a big-endian 32-bit value at offset `i`.
pub fn read_be32(input: &[u8], i: usize) -> (r: u32)
    requires
        i + 4 <= input@.len(),
    ensures
        r == spec_be32(input@, i as int),
{
    let b0 = input[i] as u32;
    let b1 = input[i + 1] as u32;
    let b2 = input[i + 2] as u32;
    let b3 = input[i + 3] as u32;
    b0 * 0x1000000 + b1 * 0x10000 + b2 * 0x100 + b3
}

} // verus!
