//! Command-processing core of a hardware-wallet application.
//!
//! The crate receives fixed-format command frames, routes them by class and
//! instruction to a small set of handler capabilities, and decodes the binary
//! transaction and key-derivation-path formats that those handlers display
//! and sign.  All decoders are bounds-checked and never panic on adversarial
//! or truncated input.

pub mod bip32;
pub mod constants;
pub mod crypto;
pub mod dispatcher;
pub mod operations;
pub mod parser;
pub mod pic;
pub mod public_key;
pub mod utils;

use vstd::prelude::*;

verus! {

} // verus!
