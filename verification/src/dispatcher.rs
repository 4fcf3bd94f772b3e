//! Routing of command frames to handler capabilities.
//!
//! The dispatcher is a stateless per-call router: it resets the output
//! flags, rejects a foreign class byte, and matches the instruction byte
//! against the diagnostic set (when enabled), the active build variant's
//! exclusive set, and finally the common set.  An instruction that is
//! recognized but forbidden under the active variant is answered with
//! command-not-allowed, as is one that is not defined at all.

use vstd::prelude::*;

use crate::constants::{spec_code, ApduError, APDU_INDEX_CLA, APDU_INDEX_INS, APDU_MIN_LENGTH};
use crate::public_key::GetAddress;
use crate::utils::{ApduBufferRead, ApduBufferWrite};

verus! {

/// The application's class byte.
pub const CLA: u8 = 0x80;

/// Flag bit the core sets when a handler asks the caller to complete the
/// response through an external flow (user approval, key generation, or
/// another collaborator the core does not contain).
pub const FLAG_DEFERRED_RESPONSE: u32 = 1;

// Restricted-variant legacy instructions.
pub const INS_LEGACY_AUTHORIZE_BAKING: u8 = 0x1;
pub const INS_LEGACY_RESET: u8 = 0x6;
pub const INS_LEGACY_QUERY_AUTH_KEY: u8 = 0x7;
pub const INS_LEGACY_QUERY_MAIN_HWM: u8 = 0x8;
pub const INS_LEGACY_SETUP: u8 = 0xA;
pub const INS_LEGACY_QUERY_ALL_HWM: u8 = 0xB;
pub const INS_LEGACY_DEAUTHORIZE: u8 = 0xC;
pub const INS_LEGACY_QUERY_AUTH_KEY_WITH_CURVE: u8 = 0xD;
pub const INS_LEGACY_HMAC: u8 = 0xE;

// Restricted-variant current instructions.
pub const INS_AUTHORIZE_BAKING: u8 = 0xA1;
pub const INS_DEAUTHORIZE_BAKING: u8 = 0xAC;
pub const INS_QUERY_AUTH_KEY: u8 = 0xA7;
pub const INS_QUERY_AUTH_KEY_WITH_CURVE: u8 = 0xAD;
pub const INS_BAKER_SIGN: u8 = 0xAF;

// General-variant legacy instructions.
pub const INS_LEGACY_SIGN_UNSAFE: u8 = 0x5;

// Common legacy instructions.
pub const INS_LEGACY_GET_VERSION: u8 = 0x0;
pub const INS_LEGACY_GET_PUBLIC_KEY: u8 = 0x2;
pub const INS_LEGACY_PROMPT_PUBLIC_KEY: u8 = 0x3;
pub const INS_LEGACY_SIGN: u8 = 0x4;
pub const INS_LEGACY_GIT: u8 = 0x9;
pub const INS_LEGACY_SIGN_WITH_HASH: u8 = 0xF;

// Common current instructions.
pub const INS_GET_VERSION: u8 = 0x10;
pub const INS_GET_ADDRESS: u8 = 0x11;
pub const INS_SIGN: u8 = 0x12;

// Diagnostic instructions.
pub const INS_DEV_HASH: u8 = 0xF0;
pub const INS_DEV_EXCEPT: u8 = 0xF1;
pub const INS_DEV_ECHO_UI: u8 = 0xF2;

/// Exactly one of the two mutually exclusive instruction sets is active.
#[derive(Debug, Clone, Copy, PartialEq, Eq, Structural)]
pub enum BuildVariant {
    /// The restricted set: watermark and delegation-management
    /// instructions are available, the unsafe legacy sign code is not.
    Baking,
    /// The general set: the unsafe legacy sign code is available, the
    /// restricted instructions are refused.
    Wallet,
}

/// Immutable configuration chosen at startup that parameterizes the
/// dispatcher's enabled instruction set.
#[derive(Debug, Clone, Copy, PartialEq, Eq, Structural)]
pub struct DispatchConfig {
    pub variant: BuildVariant,
    /// Whether the diagnostic instruction set is enabled.
    pub dev: bool,
}

/// The closed set of handler capabilities a frame can route to.
#[derive(Debug, Clone, Copy, PartialEq, Eq, Structural)]
pub enum Capability {
    LegacyGetVersion,
    LegacyGit,
    GetVersion,
    GetAddress,
    Sign,
    LegacyHwm,
    Baking,
    DevHash,
    DevExcept,
    DevEchoUi,
}

/// Uniform interface of a handler capability: it receives the validated
/// frame, may set output flags, and reports the status to append.
pub trait ApduHandler {
    /// Mathematical outcome of the handler: the output flags word and the
    /// optional error status, as a function of the frame contents.
    spec fn spec_handle(buf: Seq<u8>, rx: u32) -> (u32, Option<ApduError>);

    /// Process a routed frame.
    fn handle(flags: &mut u32, buffer: &Vec<u8>, read: &ApduBufferRead) -> (r: Option<ApduError>)
        requires
            read.wf(buffer@),
        ensures
            *final(flags) == Self::spec_handle(buffer@, read.rx).0,
            r == Self::spec_handle(buffer@, read.rx).1,
    ;
}

/// The capability a given instruction routes to under the given
/// configuration, or nothing when the instruction is unknown or forbidden
/// under the active variant.
pub open spec fn spec_route(cfg: DispatchConfig, ins: u8) -> Option<Capability> {
    if cfg.dev && ins == INS_DEV_HASH {
        Some(Capability::DevHash)
    } else if cfg.dev && ins == INS_DEV_EXCEPT {
        Some(Capability::DevExcept)
    } else if cfg.dev && ins == INS_DEV_ECHO_UI {
        Some(Capability::DevEchoUi)
    } else if cfg.variant is Baking && (ins == INS_LEGACY_RESET || ins == INS_LEGACY_QUERY_MAIN_HWM
        || ins == INS_LEGACY_QUERY_ALL_HWM) {
        Some(Capability::LegacyHwm)
    } else if cfg.variant is Baking && (ins == INS_AUTHORIZE_BAKING || ins
        == INS_DEAUTHORIZE_BAKING || ins == INS_QUERY_AUTH_KEY_WITH_CURVE || ins
        == INS_BAKER_SIGN) {
        Some(Capability::Baking)
    } else if cfg.variant is Baking && (ins == INS_LEGACY_AUTHORIZE_BAKING || ins
        == INS_LEGACY_QUERY_AUTH_KEY || ins == INS_LEGACY_SETUP || ins == INS_LEGACY_DEAUTHORIZE
        || ins == INS_LEGACY_QUERY_AUTH_KEY_WITH_CURVE || ins == INS_LEGACY_HMAC) {
        None
    } else if cfg.variant is Wallet && ins == INS_LEGACY_SIGN_UNSAFE {
        Some(Capability::Sign)
    } else if ins == INS_LEGACY_GET_VERSION {
        Some(Capability::LegacyGetVersion)
    } else if ins == INS_LEGACY_GET_PUBLIC_KEY || ins == INS_LEGACY_PROMPT_PUBLIC_KEY || ins
        == INS_GET_ADDRESS {
        Some(Capability::GetAddress)
    } else if ins == INS_LEGACY_GIT {
        Some(Capability::LegacyGit)
    } else if ins == INS_LEGACY_SIGN || ins == INS_LEGACY_SIGN_WITH_HASH || ins == INS_SIGN {
        Some(Capability::Sign)
    } else if ins == INS_GET_VERSION {
        Some(Capability::GetVersion)
    } else {
        None
    }
}

/// Outcome of one dispatch: the output flags word and the optional error
/// status, as a function of configuration and frame contents.
///
/// A mismatched class byte is answered with class-not-supported whatever
/// the remaining bytes hold; an unrouted instruction with
/// command-not-allowed; the address capability decides per its own
/// contract; every other routed capability is completed by an external
/// collaborator, so the core defers and reports no error itself.
pub open spec fn spec_dispatch(cfg: DispatchConfig, buf: Seq<u8>, rx: u32) -> (
    u32,
    Option<ApduError>,
) {
    if buf[APDU_INDEX_CLA as int] != CLA {
        (0, Some(ApduError::ClaNotSupported))
    } else {
        match spec_route(cfg, buf[APDU_INDEX_INS as int]) {
            None => (0, Some(ApduError::CommandNotAllowed)),
            Some(Capability::GetAddress) => GetAddress::spec_handle(buf, rx),
            Some(_) => (FLAG_DEFERRED_RESPONSE, None),
        }
    }
}

/// A frame shorter than the minimum header size is answered with exactly
/// the 2-byte wrong-length status, whatever its bytes hold: the top-level
/// entry promises this for every received length below the minimum (and
/// for one beyond the buffer), before any dispatch runs.
pub proof fn lemma_short_frame_status(buf: Seq<u8>, rx: u32)
    requires
        buf.len() >= 2,
        rx < APDU_MIN_LENGTH || rx > buf.len(),
    ensures
        spec_status_bytes(buf, ApduError::WrongLength).len() == buf.len(),
        spec_status_bytes(buf, ApduError::WrongLength)[0] == (spec_code(ApduError::WrongLength)
            >> 8) as u8,
        spec_status_bytes(buf, ApduError::WrongLength)[1] == spec_code(
            ApduError::WrongLength,
        ) as u8,
{
}

/// A frame whose class byte is not the application class is answered with
/// the class-not-supported status and zeroed flags, regardless of every
/// remaining byte of the frame.
pub proof fn lemma_mismatched_class(cfg: DispatchConfig, buf: Seq<u8>, rx: u32)
    requires
        buf[APDU_INDEX_CLA as int] != CLA,
    ensures
        spec_dispatch(cfg, buf, rx) == (0u32, Some(ApduError::ClaNotSupported)),
{
}

/// The routed work belongs to an external collaborator: record that the
/// caller must complete the response and report no error from the core.
fn defer_to_external(flags: &mut u32) -> (r: Option<ApduError>)
    ensures
        *final(flags) == FLAG_DEFERRED_RESPONSE,
        r is None,
{
    *flags = FLAG_DEFERRED_RESPONSE;
    None
}

/// Route one validated frame: reset the flags, reject a foreign class,
/// match the diagnostic, variant and common instruction sets in that
/// order, and run the selected capability.
pub fn apdu_dispatch(
    cfg: &DispatchConfig,
    flags: &mut u32,
    buffer: &Vec<u8>,
    read: &ApduBufferRead,
) -> (r: (ApduBufferWrite, Option<ApduError>))
    requires
        read.wf(buffer@),
    ensures
        r.0.written == 0,
        *final(flags) == spec_dispatch(*cfg, buffer@, read.rx).0,
        r.1 == spec_dispatch(*cfg, buffer@, read.rx).1,
{
    *flags = 0;
    let write = ApduBufferWrite::new();

    if read.cla(buffer) != CLA {
        return (write, Some(ApduError::ClaNotSupported));
    }

    let ins = read.ins(buffer);

    // Diagnostic instructions, when compiled in by configuration.
    if cfg.dev {
        if ins == INS_DEV_HASH || ins == INS_DEV_EXCEPT || ins == INS_DEV_ECHO_UI {
            return (write, defer_to_external(flags));
        }
    }

    // The exclusive instruction set of the active variant.
    match cfg.variant {
        BuildVariant::Baking => {
            if ins == INS_LEGACY_RESET || ins == INS_LEGACY_QUERY_MAIN_HWM || ins
                == INS_LEGACY_QUERY_ALL_HWM {
                return (write, defer_to_external(flags));
            }
            if ins == INS_AUTHORIZE_BAKING || ins == INS_DEAUTHORIZE_BAKING || ins
                == INS_QUERY_AUTH_KEY_WITH_CURVE || ins == INS_BAKER_SIGN {
                return (write, defer_to_external(flags));
            }
            if ins == INS_LEGACY_AUTHORIZE_BAKING || ins == INS_LEGACY_QUERY_AUTH_KEY || ins
                == INS_LEGACY_SETUP || ins == INS_LEGACY_DEAUTHORIZE || ins
                == INS_LEGACY_QUERY_AUTH_KEY_WITH_CURVE || ins == INS_LEGACY_HMAC {
                return (write, Some(ApduError::CommandNotAllowed));
            }
        },
        BuildVariant::Wallet => {
            if ins == INS_LEGACY_SIGN_UNSAFE {
                return (write, defer_to_external(flags));
            }
        },
    }

    // The common instruction set, unifying legacy and current codes onto
    // shared capabilities.
    if ins == INS_LEGACY_GET_VERSION {
        (write, defer_to_external(flags))
    } else if ins == INS_LEGACY_GET_PUBLIC_KEY || ins == INS_LEGACY_PROMPT_PUBLIC_KEY || ins
        == INS_GET_ADDRESS {
        (write, GetAddress::handle(flags, buffer, read))
    } else if ins == INS_LEGACY_GIT {
        (write, defer_to_external(flags))
    } else if ins == INS_LEGACY_SIGN || ins == INS_LEGACY_SIGN_WITH_HASH || ins == INS_SIGN {
        (write, defer_to_external(flags))
    } else if ins == INS_GET_VERSION {
        (write, defer_to_external(flags))
    } else {
        (write, Some(ApduError::CommandNotAllowed))
    }
}

/// Status bytes of `e` written over the first two bytes of `buf`.
pub open spec fn spec_status_bytes(buf: Seq<u8>, e: ApduError) -> Seq<u8> {
    buf.update(0, (spec_code(e) >> 8) as u8).update(1, spec_code(e) as u8)
}

/// Top-level entry: process one raw frame and always leave a well-formed
/// response in the buffer.
///
/// A frame shorter than the minimum header size (or one declared longer
/// than the buffer) is answered with exactly the 2-byte wrong-length
/// status and touches nothing else; otherwise the dispatcher runs and its
/// status word is appended after the response payload.  If even the status
/// word cannot be placed, the first two bytes carry the
/// output-buffer-too-small status, so no input can leave the buffer
/// without a well-formed response.
pub fn handle_apdu(
    cfg: &DispatchConfig,
    flags: &mut u32,
    tx: &mut u32,
    rx: u32,
    apdu_buffer: &mut Vec<u8>,
)
    requires
        old(apdu_buffer)@.len() >= 2,
    ensures
        final(apdu_buffer)@.len() == old(apdu_buffer)@.len(),
        !(APDU_MIN_LENGTH <= rx && rx <= old(apdu_buffer)@.len()) ==> *final(tx) == 2
            && *final(flags) == *old(flags) && final(apdu_buffer)@ == spec_status_bytes(
            old(apdu_buffer)@,
            ApduError::WrongLength,
        ),
        (APDU_MIN_LENGTH <= rx && rx <= old(apdu_buffer)@.len()) ==> ({
            let (f, e) = spec_dispatch(*cfg, old(apdu_buffer)@, rx);
            let status = match e {
                Some(err) => err,
                None => ApduError::Success,
            };
            &&& *final(tx) == 2
            &&& *final(flags) == f
            &&& final(apdu_buffer)@ == spec_status_bytes(old(apdu_buffer)@, status)
        }),
{
    let closed = match ApduBufferRead::new(apdu_buffer, rx) {
        Ok(read) => {
            let (write, mby_err) = apdu_dispatch(cfg, flags, apdu_buffer, &read);
            write.close(apdu_buffer, mby_err)
        },
        Err(_) => ApduBufferWrite::new().close(apdu_buffer, Some(ApduError::WrongLength)),
    };

    match closed {
        Err(_) => {
            // Even the status word did not fit after the written payload:
            // fall back to a bare status at the start of the buffer.
            let err = ApduError::OutputBufferTooSmall.code();
            apdu_buffer[0] = (err >> 8) as u8;
            apdu_buffer[1] = err as u8;
            *tx = 2;
        },
        Ok(n) => {
            *tx = n as u32;
        },
    }
}

} // verus!
