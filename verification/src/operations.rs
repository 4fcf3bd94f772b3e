//! Decoders for the tagged transfer-operation structures.
//!
//! The composition is strict left-to-right without backtracking: a failing
//! sub-decode aborts the whole decode with that failure unchanged, so a
//! caller can tell how much input was consumed before the failure.

use vstd::prelude::*;

use crate::crypto::Curve;
use crate::parser::{
    boolean, lemma_boolean_take, lemma_contract_id_take, lemma_public_key_hash_take,
    lemma_zarith_take, public_key_hash, read_be32, res_matches, spec_be32, spec_boolean_from,
    spec_contract_id_from, spec_public_key_hash_from, spec_span, spec_zarith_from, ContractID,
    PResult, ParserError, Span, Zarith,
};

verus! {

/// Target selector of a smart-contract call: one of five fixed entrypoints
/// or a custom, length-prefixed name held as a span of the input.
#[derive(Debug, Clone, Copy, PartialEq, Eq, Structural)]
pub enum Entrypoint {
    Default,
    Root,
    Do,
    SetDelegate,
    RemoveDelegate,
    Custom(Span),
}

/// Mathematical counterpart of [`Entrypoint::from_bytes`]: one tag byte;
/// tags 0x00 through 0x04 select the fixed entrypoints, tag 0xFF is
/// followed by a length byte and that many name bytes.
pub open spec fn spec_entrypoint_from(s: Seq<u8>, off: int) -> Result<
    (Entrypoint, int),
    (ParserError, int),
> {
    if !(0 <= off < s.len()) {
        Err((ParserError::UnexpectedBufferEnd, off))
    } else if s[off] == 0x00 {
        Ok((Entrypoint::Default, off + 1))
    } else if s[off] == 0x01 {
        Ok((Entrypoint::Root, off + 1))
    } else if s[off] == 0x02 {
        Ok((Entrypoint::Do, off + 1))
    } else if s[off] == 0x03 {
        Ok((Entrypoint::SetDelegate, off + 1))
    } else if s[off] == 0x04 {
        Ok((Entrypoint::RemoveDelegate, off + 1))
    } else if s[off] == 0xFF {
        if off + 2 > s.len() {
            Err((ParserError::UnexpectedBufferEnd, off))
        } else if off + 2 + s[off + 1] <= s.len() {
            Ok((Entrypoint::Custom(spec_span(off + 2, off + 2 + s[off + 1])), off + 2 + s[off + 1]))
        } else {
            Err((ParserError::UnexpectedBufferEnd, off))
        }
    } else {
        Err((ParserError::InvalidContractName, off))
    }
}

impl Entrypoint {
    /// Decode an entrypoint starting at `offset`.
    ///
    /// Tags 0x00 through 0x04 consume exactly one byte; tag 0xFF with a
    /// declared name length of L consumes exactly 2 + L bytes and yields
    /// the name bytes unchanged as a span; any other tag is rejected.
    pub fn from_bytes(input: &[u8], offset: usize) -> (r: PResult<Entrypoint>)
        ensures
            res_matches(r, spec_entrypoint_from(input@, offset as int)),
    {
        if offset >= input.len() {
            return Err((ParserError::UnexpectedBufferEnd, offset));
        }
        match input[offset] {
            0x00 => Ok((Entrypoint::Default, offset + 1)),
            0x01 => Ok((Entrypoint::Root, offset + 1)),
            0x02 => Ok((Entrypoint::Do, offset + 1)),
            0x03 => Ok((Entrypoint::SetDelegate, offset + 1)),
            0x04 => Ok((Entrypoint::RemoveDelegate, offset + 1)),
            0xFF => {
                if input.len() - offset < 2 {
                    return Err((ParserError::UnexpectedBufferEnd, offset));
                }
                let name_len = input[offset + 1] as usize;
                if input.len() - offset - 2 < name_len {
                    return Err((ParserError::UnexpectedBufferEnd, offset));
                }
                let end = offset + 2 + name_len;
                Ok((Entrypoint::Custom(Span { start: offset + 2, end }), end))
            },
            _ => Err((ParserError::InvalidContractName, offset)),
        }
    }
}

/// The characters a byte sequence decodes to when it is valid text, and
/// nothing otherwise.  What the decoding yields depends on the bytes
/// alone.
pub uninterp spec fn utf8_chars(b: Seq<u8>) -> Option<Seq<char>>;

/// Relies on core::str::from_utf8: validates the bytes as text and
/// reinterprets them without change; the result depends on the bytes
/// alone.
#[verifier::external_body]
fn bytes_as_text(b: &[u8]) -> (r: Option<&str>)
    ensures
        match utf8_chars(b@) {
            Some(cs) => r matches Some(t) && t@ == cs,
            None => r is None,
        },
{
    core::str::from_utf8(b).ok()
}

impl Entrypoint {
    /// The display form of the entrypoint: the five fixed entrypoints
    /// render as fixed lowercase identifiers; a custom entrypoint renders
    /// its name bytes as text, or nothing when they are not valid text.
    pub fn display_name<'a>(&self, input: &'a [u8]) -> (r: Option<&'a str>)
        requires
            *self matches Entrypoint::Custom(span) ==> span.start <= span.end <= input@.len(),
        ensures
            match *self {
                Entrypoint::Default => r matches Some(t) && t@ == "default"@,
                Entrypoint::Root => r matches Some(t) && t@ == "root"@,
                Entrypoint::Do => r matches Some(t) && t@ == "do"@,
                Entrypoint::SetDelegate => r matches Some(t) && t@ == "set_delegate"@,
                Entrypoint::RemoveDelegate => r matches Some(t) && t@ == "remove_delegate"@,
                Entrypoint::Custom(span) => match utf8_chars(
                    input@.subrange(span.start as int, span.end as int),
                ) {
                    Some(cs) => r matches Some(t) && t@ == cs,
                    None => r is None,
                },
            },
    {
        match self {
            Entrypoint::Default => Some("default"),
            Entrypoint::Root => Some("root"),
            Entrypoint::Do => Some("do"),
            Entrypoint::SetDelegate => Some("set_delegate"),
            Entrypoint::RemoveDelegate => Some("remove_delegate"),
            Entrypoint::Custom(span) => bytes_as_text(&input[span.start..span.end]),
        }
    }
}

/// The entrypoint decoder consumes exactly what the tag dictates: tags
/// 0x00 through 0x04 decode to the matching fixed entrypoint and consume
/// one byte; tag 0xFF with declared name length L consumes exactly 2 + L
/// bytes and yields the name bytes unchanged, as the span starting two
/// bytes past the tag; every other tag is rejected.
pub proof fn lemma_entrypoint_consumption(s: Seq<u8>, off: int)
    requires
        0 <= off < s.len() <= usize::MAX,
    ensures
        s[off] == 0x00 ==> spec_entrypoint_from(s, off) == Ok::<(Entrypoint, int), (
            ParserError,
            int,
        )>((Entrypoint::Default, off + 1)),
        s[off] == 0x01 ==> spec_entrypoint_from(s, off) == Ok::<(Entrypoint, int), (
            ParserError,
            int,
        )>((Entrypoint::Root, off + 1)),
        s[off] == 0x02 ==> spec_entrypoint_from(s, off) == Ok::<(Entrypoint, int), (
            ParserError,
            int,
        )>((Entrypoint::Do, off + 1)),
        s[off] == 0x03 ==> spec_entrypoint_from(s, off) == Ok::<(Entrypoint, int), (
            ParserError,
            int,
        )>((Entrypoint::SetDelegate, off + 1)),
        s[off] == 0x04 ==> spec_entrypoint_from(s, off) == Ok::<(Entrypoint, int), (
            ParserError,
            int,
        )>((Entrypoint::RemoveDelegate, off + 1)),
        s[off] == 0xFF && off + 1 < s.len() && off + 2 + s[off + 1] <= s.len()
            ==> spec_entrypoint_from(s, off) == Ok::<(Entrypoint, int), (ParserError, int)>((
            Entrypoint::Custom(spec_span(off + 2, off + 2 + s[off + 1])),
            off + 2 + s[off + 1],
        )),
        s[off] == 0xFF && !(off + 1 < s.len() && off + 2 + s[off + 1] <= s.len())
            ==> spec_entrypoint_from(s, off) == Err::<(Entrypoint, int), (ParserError, int)>((
            ParserError::UnexpectedBufferEnd,
            off,
        )),
        !(s[off] <= 0x04 || s[off] == 0xFF) ==> spec_entrypoint_from(s, off) == Err::<
            (Entrypoint, int),
            (ParserError, int),
        >((ParserError::InvalidContractName, off)),
{
}

/// Call parameters: an entrypoint and an opaque payload span whose length
/// is declared by a 4-byte big-endian field.
#[derive(Debug, Clone, Copy, PartialEq, Eq, Structural)]
pub struct Parameters {
    pub entrypoint: Entrypoint,
    pub michelson: Span,
}

impl Parameters {
    /// The entrypoint the parameters are addressed to.
    pub fn entrypoint(&self) -> (r: Entrypoint)
        ensures
            r == self.entrypoint,
    {
        self.entrypoint
    }

    /// The opaque payload span.
    pub fn michelson(&self) -> (r: Span)
        ensures
            r == self.michelson,
    {
        self.michelson
    }
}

/// Mathematical counterpart of [`Parameters::from_bytes`]: an entrypoint,
/// a 4-byte big-endian payload length, then exactly that many payload
/// bytes.
pub open spec fn spec_parameters_from(s: Seq<u8>, off: int) -> Result<
    (Parameters, int),
    (ParserError, int),
> {
    match spec_entrypoint_from(s, off) {
        Err(e) => Err(e),
        Ok((entrypoint, o2)) => {
            if o2 + 4 > s.len() {
                Err((ParserError::UnexpectedBufferEnd, o2))
            } else if o2 + 4 + spec_be32(s, o2) <= s.len() {
                Ok(
                    (
                        Parameters {
                            entrypoint,
                            michelson: spec_span(o2 + 4, o2 + 4 + spec_be32(s, o2)),
                        },
                        o2 + 4 + spec_be32(s, o2),
                    ),
                )
            } else {
                Err((ParserError::UnexpectedBufferEnd, o2 + 4))
            }
        },
    }
}

impl Parameters {
    /// Decode call parameters starting at `offset`.
    pub fn from_bytes(input: &[u8], offset: usize) -> (r: PResult<Parameters>)
        ensures
            res_matches(r, spec_parameters_from(input@, offset as int)),
    {
        let (entrypoint, o2) = match Entrypoint::from_bytes(input, offset) {
            Ok(v) => v,
            Err(e) => {
                return Err(e);
            },
        };
        if input.len() - o2 < 4 {
            return Err((ParserError::UnexpectedBufferEnd, o2));
        }
        let payload_len = read_be32(input, o2) as usize;
        if input.len() - o2 - 4 < payload_len {
            return Err((ParserError::UnexpectedBufferEnd, o2 + 4));
        }
        let end = o2 + 4 + payload_len;
        Ok((Parameters { entrypoint, michelson: Span { start: o2 + 4, end } }, end))
    }
}

/// A decoded transfer operation.  All variable-length pieces are spans of
/// the caller-owned input buffer.
#[derive(Debug, Clone, Copy, PartialEq)]
pub struct Transfer {
    pub source: (Curve, Span),
    pub fee: Zarith,
    pub counter: Zarith,
    pub gas_limit: Zarith,
    pub storage_limit: Zarith,
    pub amount: Zarith,
    pub destination: ContractID,
    pub parameters: Option<Parameters>,
}

impl Transfer {
    /// Source of the transfer: curve and key-hash span.
    pub fn source(&self) -> (r: (Curve, Span))
        ensures
            r == self.source,
    {
        self.source
    }

    /// Fee, as an unsigned arbitrary-precision integer.
    pub fn fee(&self) -> (r: Zarith)
        ensures
            r == self.fee,
    {
        self.fee
    }

    /// Counter, as an unsigned arbitrary-precision integer.
    pub fn counter(&self) -> (r: Zarith)
        ensures
            r == self.counter,
    {
        self.counter
    }

    /// Gas limit, as an unsigned arbitrary-precision integer.
    pub fn gas_limit(&self) -> (r: Zarith)
        ensures
            r == self.gas_limit,
    {
        self.gas_limit
    }

    /// Storage limit, as an unsigned arbitrary-precision integer.
    pub fn storage_limit(&self) -> (r: Zarith)
        ensures
            r == self.storage_limit,
    {
        self.storage_limit
    }

    /// Transferred amount, as an unsigned arbitrary-precision integer.
    pub fn amount(&self) -> (r: Zarith)
        ensures
            r == self.amount,
    {
        self.amount
    }

    /// Destination contract identifier.
    pub fn destination(&self) -> (r: ContractID)
        ensures
            r == self.destination,
    {
        self.destination
    }

    /// Call parameters, when the flag byte announced them.
    pub fn parameters(&self) -> (r: Option<Parameters>)
        ensures
            r == self.parameters,
    {
        self.parameters
    }
}

/// Mathematical counterpart of [`Transfer::from_bytes`]: source, five
/// unsigned arbitrary-precision integers, destination, then a boolean flag
/// byte gating optional parameters.
pub open spec fn spec_transfer_from(s: Seq<u8>, off: int) -> Result<
    (Transfer, int),
    (ParserError, int),
> {
    match spec_public_key_hash_from(s, off) {
        Err(e) => Err(e),
        Ok((source, o1)) => match spec_zarith_from(s, o1, false) {
            Err(e) => Err(e),
            Ok((fee, o2)) => match spec_zarith_from(s, o2, false) {
                Err(e) => Err(e),
                Ok((counter, o3)) => match spec_zarith_from(s, o3, false) {
                    Err(e) => Err(e),
                    Ok((gas_limit, o4)) => match spec_zarith_from(s, o4, false) {
                        Err(e) => Err(e),
                        Ok((storage_limit, o5)) => match spec_zarith_from(s, o5, false) {
                            Err(e) => Err(e),
                            Ok((amount, o6)) => match spec_contract_id_from(s, o6) {
                                Err(e) => Err(e),
                                Ok((destination, o7)) => match spec_boolean_from(s, o7) {
                                    Err(e) => Err(e),
                                    Ok((has_params, o8)) => if has_params {
                                        match spec_parameters_from(s, o8) {
                                            Err(e) => Err(e),
                                            Ok((params, o9)) => Ok(
                                                (
                                                    Transfer {
                                                        source,
                                                        fee,
                                                        counter,
                                                        gas_limit,
                                                        storage_limit,
                                                        amount,
                                                        destination,
                                                        parameters: Some(params),
                                                    },
                                                    o9,
                                                ),
                                            ),
                                        }
                                    } else {
                                        Ok(
                                            (
                                                Transfer {
                                                    source,
                                                    fee,
                                                    counter,
                                                    gas_limit,
                                                    storage_limit,
                                                    amount,
                                                    destination,
                                                    parameters: None,
                                                },
                                                o8,
                                            ),
                                        )
                                    },
                                },
                            },
                        },
                    },
                },
            },
        },
    }
}

impl Transfer {
    /// Decode a transfer operation starting at `offset`.
    pub fn from_bytes(input: &[u8], offset: usize) -> (r: PResult<Transfer>)
        ensures
            res_matches(r, spec_transfer_from(input@, offset as int)),
    {
        let (source, o1) = match public_key_hash(input, offset) {
            Ok(v) => v,
            Err(e) => {
                return Err(e);
            },
        };
        let (fee, o2) = match Zarith::from_bytes(input, o1, false) {
            Ok(v) => v,
            Err(e) => {
                return Err(e);
            },
        };
        let (counter, o3) = match Zarith::from_bytes(input, o2, false) {
            Ok(v) => v,
            Err(e) => {
                return Err(e);
            },
        };
        let (gas_limit, o4) = match Zarith::from_bytes(input, o3, false) {
            Ok(v) => v,
            Err(e) => {
                return Err(e);
            },
        };
        let (storage_limit, o5) = match Zarith::from_bytes(input, o4, false) {
            Ok(v) => v,
            Err(e) => {
                return Err(e);
            },
        };
        let (amount, o6) = match Zarith::from_bytes(input, o5, false) {
            Ok(v) => v,
            Err(e) => {
                return Err(e);
            },
        };
        let (destination, o7) = match ContractID::from_bytes(input, o6) {
            Ok(v) => v,
            Err(e) => {
                return Err(e);
            },
        };
        let (has_params, o8) = match boolean(input, o7) {
            Ok(v) => v,
            Err(e) => {
                return Err(e);
            },
        };
        if has_params {
            let (params, o9) = match Parameters::from_bytes(input, o8) {
                Ok(v) => v,
                Err(e) => {
                    return Err(e);
                },
            };
            Ok(
                (
                    Transfer {
                        source,
                        fee,
                        counter,
                        gas_limit,
                        storage_limit,
                        amount,
                        destination,
                        parameters: Some(params),
                    },
                    o9,
                ),
            )
        } else {
            Ok(
                (
                    Transfer {
                        source,
                        fee,
                        counter,
                        gas_limit,
                        storage_limit,
                        amount,
                        destination,
                        parameters: None,
                    },
                    o8,
                ),
            )
        }
    }
}

/// How a successful entrypoint decode behaves when the input is cut at
/// `m`: a cut at or past the consumed bytes changes nothing, a cut inside
/// them turns the decode into an incomplete-input failure.
pub proof fn lemma_entrypoint_take(s: Seq<u8>, off: int, m: int)
    requires
        0 <= off,
        0 <= m <= s.len(),
    ensures
        spec_entrypoint_from(s, off) matches Ok((v, cursor)) ==> {
            &&& off < cursor <= s.len()
            &&& (m >= cursor ==> spec_entrypoint_from(s.take(m), off) == spec_entrypoint_from(
                s,
                off,
            ))
            &&& (m < cursor ==> spec_entrypoint_from(s.take(m), off) == Err::<
                (Entrypoint, int),
                (ParserError, int),
            >((ParserError::UnexpectedBufferEnd, off)))
        },
{
}

/// How a successful parameters decode behaves when the input is cut at
/// `m`: a cut at or past the consumed bytes changes nothing, a cut inside
/// them turns the decode into an incomplete-input failure.
pub proof fn lemma_parameters_take(s: Seq<u8>, off: int, m: int)
    requires
        0 <= off,
        0 <= m <= s.len(),
    ensures
        spec_parameters_from(s, off) matches Ok((v, cursor)) ==> {
            &&& off < cursor <= s.len()
            &&& (m >= cursor ==> spec_parameters_from(s.take(m), off) == spec_parameters_from(
                s,
                off,
            ))
            &&& (m < cursor ==> (spec_parameters_from(s.take(m), off) matches Err(p) && p.0
                == ParserError::UnexpectedBufferEnd))
        },
{
    lemma_entrypoint_take(s, off, m);
    match spec_entrypoint_from(s, off) {
        Ok((entrypoint, o2)) => {
            if o2 + 4 <= s.len() && m >= o2 + 4 {
                assert(spec_be32(s.take(m), o2) == spec_be32(s, o2));
            }
        },
        Err(e) => {},
    }
}

/// Truncating a valid transfer encoding anywhere strictly inside the
/// consumed bytes turns the decode into an incomplete-input failure and
/// never a partially populated value; in particular this holds for every
/// cut before the destination field.  A cut at or past the consumed bytes
/// leaves the decoded value unchanged.
pub proof fn lemma_transfer_take(s: Seq<u8>, off: int, m: int)
    requires
        0 <= off,
        0 <= m <= s.len(),
    ensures
        spec_transfer_from(s, off) matches Ok((v, cursor)) ==> {
            &&& off < cursor <= s.len()
            &&& (m >= cursor ==> spec_transfer_from(s.take(m), off) == spec_transfer_from(s, off))
            &&& (m < cursor ==> (spec_transfer_from(s.take(m), off) matches Err(p) && p.0
                == ParserError::UnexpectedBufferEnd))
        },
{
    match spec_transfer_from(s, off) {
      Err(e) => {},
      Ok((v, cursor)) => {
        lemma_public_key_hash_take(s, off, m);
        match spec_public_key_hash_from(s, off) {
            Ok((source, o1)) => {
                lemma_zarith_take(s, o1, m, false);
                match spec_zarith_from(s, o1, false) {
                    Ok((fee, o2)) => {
                        lemma_zarith_take(s, o2, m, false);
                        match spec_zarith_from(s, o2, false) {
                            Ok((counter, o3)) => {
                                lemma_zarith_take(s, o3, m, false);
                                match spec_zarith_from(s, o3, false) {
                                    Ok((gas_limit, o4)) => {
                                        lemma_zarith_take(s, o4, m, false);
                                        match spec_zarith_from(s, o4, false) {
                                            Ok((storage_limit, o5)) => {
                                                lemma_zarith_take(s, o5, m, false);
                                                match spec_zarith_from(s, o5, false) {
                                                    Ok((amount, o6)) => {
                                                        lemma_contract_id_take(s, o6, m);
                                                        match spec_contract_id_from(s, o6) {
                                                            Ok((destination, o7)) => {
                                                                lemma_boolean_take(s, o7, m);
                                                                match spec_boolean_from(s, o7) {
                                                                    Ok((has_params, o8)) => {
                                                                        if has_params {
                                                                            lemma_parameters_take(s, o8, m);
                                                                        }
                                                                    },
                                                                    Err(e) => {},
                                                                }
                                                            },
                                                            Err(e) => {},
                                                        }
                                                    },
                                                    Err(e) => {},
                                                }
                                            },
                                            Err(e) => {},
                                        }
                                    },
                                    Err(e) => {},
                                }
                            },
                            Err(e) => {},
                        }
                    },
                    Err(e) => {},
                }
            },
            Err(e) => {},
        }
      },
    }
}

} // verus!
