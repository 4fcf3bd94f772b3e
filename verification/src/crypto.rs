//! Elliptic-curve selectors that appear in frames and encoded operations.
//!
//! The curve arithmetic itself is performed by an external collaborator;
//! this module only decodes the selector bytes.

use vstd::prelude::*;

verus! {

/// Curve over which a key is derived or an address hash was produced.
#[derive(Debug, Clone, Copy, PartialEq, Eq, Structural)]
pub enum Curve {
    Bip32Ed25519,
    Secp256K1,
    Secp256R1,
}

/// Curve selected by a tag byte, if the tag is valid.
pub open spec fn spec_curve_from(tag: u8) -> Option<Curve> {
    if tag == 0x00 {
        Some(Curve::Bip32Ed25519)
    } else if tag == 0x01 {
        Some(Curve::Secp256K1)
    } else if tag == 0x02 {
        Some(Curve::Secp256R1)
    } else {
        None
    }
}

impl Curve {
    /// Decode a curve selector byte.
    pub fn try_from(tag: u8) -> (r: Option<Curve>)
        ensures
            r == spec_curve_from(tag),
    {
        match tag {
            0x00 => Some(Curve::Bip32Ed25519),
            0x01 => Some(Curve::Secp256K1),
            0x02 => Some(Curve::Secp256R1),
            _ => None,
        }
    }
}

} // verus!
