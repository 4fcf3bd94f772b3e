use apdu_core::constants::ApduError;
use apdu_core::dispatcher::{handle_apdu, BuildVariant, DispatchConfig, FLAG_DEFERRED_RESPONSE};
use apdu_core::utils::{ApduBufferRead, ApduBufferWrite};

fn wallet_cfg() -> DispatchConfig {
    DispatchConfig { variant: BuildVariant::Wallet, dev: false }
}

fn baking_cfg() -> DispatchConfig {
    DispatchConfig { variant: BuildVariant::Baking, dev: false }
}

fn status_of(buffer: &[u8], tx: u32) -> u16 {
    let tx = tx as usize;
    ((buffer[tx - 2] as u16) << 8) | buffer[tx - 1] as u16
}

#[test]
fn apdu_too_short() {
    let flags = &mut 0u32;
    let tx = &mut 0u32;
    let rx = 0u32;
    let buffer = &mut vec![0u8; 260];

    handle_apdu(&wallet_cfg(), flags, tx, rx, buffer);
    assert_eq!(*tx, 2u32);
    assert_eq!(status_of(buffer, *tx), ApduError::WrongLength.code());
}

#[test]
fn apdu_invalid_cla() {
    let flags = &mut 0u32;
    let tx = &mut 0u32;
    let rx = 5u32;
    let buffer = &mut vec![0u8; 260];

    handle_apdu(&wallet_cfg(), flags, tx, rx, buffer);
    assert_eq!(*tx, 2u32);
}

#[test]
fn apdu_short_lengths_all_give_wrong_length() {
    for rx in 0..5u32 {
        let flags = &mut 7u32;
        let tx = &mut 0u32;
        let buffer = &mut vec![0xAB; 32];
        handle_apdu(&wallet_cfg(), flags, tx, rx, buffer);
        assert_eq!(*tx, 2);
        assert_eq!(status_of(buffer, *tx), ApduError::WrongLength.code());
        // the rest of the buffer is untouched
        assert!(buffer[2..].iter().all(|&b| b == 0xAB));
        // the flags word is untouched on the framing-error path
        assert_eq!(*flags, 7);
    }
}

#[test]
fn apdu_rx_beyond_buffer_gives_wrong_length() {
    let flags = &mut 0u32;
    let tx = &mut 0u32;
    let buffer = &mut vec![0u8; 8];
    handle_apdu(&wallet_cfg(), flags, tx, 9, buffer);
    assert_eq!(*tx, 2);
    assert_eq!(status_of(buffer, *tx), ApduError::WrongLength.code());
}

#[test]
fn apdu_mismatched_class_reports_cla_not_supported() {
    for cla in [0x00u8, 0x7F, 0x81, 0xFF] {
        let flags = &mut 3u32;
        let tx = &mut 0u32;
        let buffer = &mut vec![0u8; 260];
        buffer[0] = cla;
        buffer[1] = 0x11;
        handle_apdu(&wallet_cfg(), flags, tx, 5, buffer);
        assert_eq!(*tx, 2);
        assert_eq!(status_of(buffer, *tx), ApduError::ClaNotSupported.code());
        assert_eq!(*flags, 0);
    }
}

#[test]
fn apdu_unknown_instruction_not_allowed() {
    let flags = &mut 0u32;
    let tx = &mut 0u32;
    let buffer = &mut vec![0u8; 260];
    buffer[0] = 0x80;
    buffer[1] = 0x55;
    handle_apdu(&wallet_cfg(), flags, tx, 5, buffer);
    assert_eq!(*tx, 2);
    assert_eq!(status_of(buffer, *tx), ApduError::CommandNotAllowed.code());
}

#[test]
fn apdu_baking_legacy_codes_are_forbidden_not_unknown() {
    // recognized but disallowed under the restricted variant
    for ins in [0x01u8, 0x07, 0x0A, 0x0C, 0x0D, 0x0E] {
        let flags = &mut 0u32;
        let tx = &mut 0u32;
        let buffer = &mut vec![0u8; 260];
        buffer[0] = 0x80;
        buffer[1] = ins;
        handle_apdu(&baking_cfg(), flags, tx, 5, buffer);
        assert_eq!(status_of(buffer, *tx), ApduError::CommandNotAllowed.code());
        assert_eq!(*flags, 0);
    }
}

#[test]
fn apdu_baking_watermark_codes_defer() {
    for ins in [0x06u8, 0x08, 0x0B, 0xA1, 0xAC, 0xAD, 0xAF] {
        let flags = &mut 0u32;
        let tx = &mut 0u32;
        let buffer = &mut vec![0u8; 260];
        buffer[0] = 0x80;
        buffer[1] = ins;
        handle_apdu(&baking_cfg(), flags, tx, 5, buffer);
        assert_eq!(status_of(buffer, *tx), ApduError::Success.code());
        assert_eq!(*flags, FLAG_DEFERRED_RESPONSE);
    }
}

#[test]
fn apdu_wallet_refuses_baking_codes() {
    for ins in [0x06u8, 0x08, 0x0B, 0xA1, 0xAC, 0xAD, 0xAF, 0x01, 0x07] {
        let flags = &mut 0u32;
        let tx = &mut 0u32;
        let buffer = &mut vec![0u8; 260];
        buffer[0] = 0x80;
        buffer[1] = ins;
        handle_apdu(&wallet_cfg(), flags, tx, 5, buffer);
        assert_eq!(status_of(buffer, *tx), ApduError::CommandNotAllowed.code());
    }
}

#[test]
fn apdu_wallet_unsafe_sign_defers() {
    let flags = &mut 0u32;
    let tx = &mut 0u32;
    let buffer = &mut vec![0u8; 260];
    buffer[0] = 0x80;
    buffer[1] = 0x05;
    handle_apdu(&wallet_cfg(), flags, tx, 5, buffer);
    assert_eq!(status_of(buffer, *tx), ApduError::Success.code());
    assert_eq!(*flags, FLAG_DEFERRED_RESPONSE);
    // the same code is refused under the restricted variant
    let buffer = &mut vec![0u8; 260];
    buffer[0] = 0x80;
    buffer[1] = 0x05;
    handle_apdu(&baking_cfg(), flags, tx, 5, buffer);
    assert_eq!(status_of(buffer, *tx), ApduError::CommandNotAllowed.code());
}

#[test]
fn apdu_diagnostic_codes_follow_configuration() {
    for ins in [0xF0u8, 0xF1, 0xF2] {
        let flags = &mut 0u32;
        let tx = &mut 0u32;
        let buffer = &mut vec![0u8; 260];
        buffer[0] = 0x80;
        buffer[1] = ins;
        let cfg = DispatchConfig { variant: BuildVariant::Wallet, dev: true };
        handle_apdu(&cfg, flags, tx, 5, buffer);
        assert_eq!(status_of(buffer, *tx), ApduError::Success.code());
        assert_eq!(*flags, FLAG_DEFERRED_RESPONSE);

        let buffer = &mut vec![0u8; 260];
        buffer[0] = 0x80;
        buffer[1] = ins;
        handle_apdu(&wallet_cfg(), flags, tx, 5, buffer);
        assert_eq!(status_of(buffer, *tx), ApduError::CommandNotAllowed.code());
    }
}

#[test]
fn apdu_common_capabilities_defer() {
    // legacy version, legacy git, legacy and current sign, current version
    for ins in [0x00u8, 0x09, 0x04, 0x0F, 0x12, 0x10] {
        for cfg in [wallet_cfg(), baking_cfg()] {
            let flags = &mut 0u32;
            let tx = &mut 0u32;
            let buffer = &mut vec![0u8; 260];
            buffer[0] = 0x80;
            buffer[1] = ins;
            handle_apdu(&cfg, flags, tx, 5, buffer);
            assert_eq!(status_of(buffer, *tx), ApduError::Success.code());
            assert_eq!(*flags, FLAG_DEFERRED_RESPONSE);
        }
    }
}

fn address_frame(ins: u8, p2: u8, data: &[u8]) -> (Vec<u8>, u32) {
    let mut buffer = vec![0u8; 260];
    buffer[0] = 0x80;
    buffer[1] = ins;
    buffer[2] = 0x00;
    buffer[3] = p2;
    buffer[4] = data.len() as u8;
    buffer[5..5 + data.len()].copy_from_slice(data);
    let rx = 5 + data.len() as u32;
    (buffer, rx)
}

#[test]
fn apdu_get_address_defers_on_valid_request() {
    // two components: a count byte and eight big-endian bytes
    let data = [2u8, 0, 0, 0, 44, 0, 0, 6, 113];
    let (mut buffer, rx) = address_frame(0x11, 0x00, &data);
    let flags = &mut 0u32;
    let tx = &mut 0u32;
    handle_apdu(&wallet_cfg(), flags, tx, rx, &mut buffer);
    assert_eq!(status_of(&buffer, *tx), ApduError::Success.code());
    assert_eq!(*flags, FLAG_DEFERRED_RESPONSE);
}

#[test]
fn apdu_get_address_rejects_bad_curve() {
    let data = [1u8, 0, 0, 0, 44];
    let (mut buffer, rx) = address_frame(0x11, 0x09, &data);
    let flags = &mut 0u32;
    let tx = &mut 0u32;
    handle_apdu(&wallet_cfg(), flags, tx, rx, &mut buffer);
    assert_eq!(status_of(&buffer, *tx), ApduError::InvalidP1P2.code());
    assert_eq!(*flags, 0);
}

#[test]
fn apdu_get_address_rejects_bad_path() {
    // declared count 3 but only one component present
    let data = [3u8, 0, 0, 0, 44];
    let (mut buffer, rx) = address_frame(0x11, 0x00, &data);
    let flags = &mut 0u32;
    let tx = &mut 0u32;
    handle_apdu(&wallet_cfg(), flags, tx, rx, &mut buffer);
    assert_eq!(status_of(&buffer, *tx), ApduError::DataInvalid.code());
}

#[test]
fn apdu_get_address_rejects_data_beyond_received() {
    let mut buffer = vec![0u8; 260];
    buffer[0] = 0x80;
    buffer[1] = 0x11;
    buffer[4] = 9;  // declares 9 data bytes, but rx covers none of them
    let flags = &mut 0u32;
    let tx = &mut 0u32;
    handle_apdu(&wallet_cfg(), flags, tx, 5, &mut buffer);
    assert_eq!(status_of(&buffer, *tx), ApduError::WrongLength.code());
}

#[test]
fn apdu_legacy_get_public_key_is_not_supported_by_the_handler() {
    // the legacy codes route to the address capability, which accepts only
    // the current instruction
    for ins in [0x02u8, 0x03] {
        let data = [1u8, 0, 0, 0, 44];
        let (mut buffer, rx) = address_frame(ins, 0x00, &data);
        let flags = &mut 0u32;
        let tx = &mut 0u32;
        handle_apdu(&wallet_cfg(), flags, tx, rx, &mut buffer);
        assert_eq!(status_of(&buffer, *tx), ApduError::InsNotSupported.code());
    }
}

#[test]
fn reader_validates_lengths() {
    let buffer = vec![0u8; 10];
    assert!(ApduBufferRead::new(&buffer, 4).is_err());
    assert!(ApduBufferRead::new(&buffer, 11).is_err());
    let read = ApduBufferRead::new(&buffer, 10).unwrap();
    assert_eq!(read.rx(), 10);
}

#[test]
fn writer_checks_capacity() {
    let mut buffer = vec![0u8; 3];
    let mut write = ApduBufferWrite::new();
    assert!(write.write_byte(&mut buffer, 0xAA).is_ok());
    assert!(write.write_byte(&mut buffer, 0xBB).is_ok());
    assert!(write.write_byte(&mut buffer, 0xCC).is_ok());
    assert!(write.write_byte(&mut buffer, 0xDD).is_err());
    assert_eq!(buffer, vec![0xAA, 0xBB, 0xCC]);
    // the status word no longer fits after three written bytes
    assert!(write.close(&mut buffer, None).is_err());
    assert_eq!(buffer, vec![0xAA, 0xBB, 0xCC]);
}

#[test]
fn writer_close_appends_status() {
    let mut buffer = vec![0u8; 4];
    let mut write = ApduBufferWrite::new();
    write.write_byte(&mut buffer, 0x42).unwrap();
    let n = write.close(&mut buffer, Some(ApduError::DataInvalid)).unwrap();
    assert_eq!(n, 3);
    let code = ApduError::DataInvalid.code();
    assert_eq!(buffer[1], (code >> 8) as u8);
    assert_eq!(buffer[2], code as u8);
    assert_eq!(buffer[0], 0x42);
}
