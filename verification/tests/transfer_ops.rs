use apdu_core::crypto::Curve;
use apdu_core::operations::{Entrypoint, Parameters, Transfer};
use apdu_core::parser::{boolean, public_key_hash, ContractID, ParserError, Span, Zarith};

#[test]
fn entrypoint() {
    let (default, _) = Entrypoint::from_bytes(&[0], 0).expect("failed to parse default entrypoint");
    assert_eq!(default, Entrypoint::Default);

    let (root, _) = Entrypoint::from_bytes(&[1], 0).expect("failed to parse root entrypoint");
    assert_eq!(root, Entrypoint::Root);

    let (do_entrypoint, _) = Entrypoint::from_bytes(&[2], 0).expect("failed to parse do entrypoint");
    assert_eq!(do_entrypoint, Entrypoint::Do);

    let (set_delegate, _) =
        Entrypoint::from_bytes(&[3], 0).expect("failed to parse set_delegate entrypoint");
    assert_eq!(set_delegate, Entrypoint::SetDelegate);

    let (remove_delegate, _) =
        Entrypoint::from_bytes(&[4], 0).expect("failed to parse remove_delegate entrypoint");
    assert_eq!(remove_delegate, Entrypoint::RemoveDelegate);

    let input = [0xFF, 0x03, 0x61, 0x62, 0x63, 0xaa];
    let (custom, cursor) =
        Entrypoint::from_bytes(&input, 0).expect("failed to parse custom entrypoint");
    assert_eq!(input.len() - cursor, 1);
    assert_eq!(custom, Entrypoint::Custom(Span { start: 2, end: 5 }));
    assert_eq!(&input[2..5], b"abc");
}

#[test]
fn entrypoint_name_truncated() {
    // a declared name length of 10 with only two name bytes present
    let r = Entrypoint::from_bytes(&[0xFF, 10, 0x61, 0x62], 0);
    assert_eq!(r, Err((ParserError::UnexpectedBufferEnd, 0)));
}

#[test]
fn entrypoint_bad_tag() {
    for tag in [0x05u8, 0x10, 0xFE] {
        let r = Entrypoint::from_bytes(&[tag], 0);
        assert_eq!(r, Err((ParserError::InvalidContractName, 0)));
    }
}

#[test]
fn entrypoint_display_names() {
    let none: &[u8] = &[];
    assert_eq!(Entrypoint::Default.display_name(none), Some("default"));
    assert_eq!(Entrypoint::Root.display_name(none), Some("root"));
    assert_eq!(Entrypoint::Do.display_name(none), Some("do"));
    assert_eq!(Entrypoint::SetDelegate.display_name(none), Some("set_delegate"));
    assert_eq!(Entrypoint::RemoveDelegate.display_name(none), Some("remove_delegate"));

    let input = [0xFF, 0x03, 0x61, 0x62, 0x63];
    let (custom, _) = Entrypoint::from_bytes(&input, 0).expect("failed to parse custom entrypoint");
    assert_eq!(custom.display_name(&input), Some("abc"));

    // invalid text renders as nothing
    let bad = [0xFF, 0x02, 0xC0, 0xC1];
    let (custom, _) = Entrypoint::from_bytes(&bad, 0).expect("failed to parse custom entrypoint");
    assert_eq!(custom.display_name(&bad), None);
}

#[test]
fn manual() {
    const MICHELSON_CODE: &[u8] = &[0xab, 0xcd];

    let mut input = vec![0];
    input.extend_from_slice(&(MICHELSON_CODE.len() as u32).to_be_bytes()[..]);
    input.extend_from_slice(MICHELSON_CODE);
    input.push(0xAA); //dummy byte to verify length

    let (parameters, cursor) = Parameters::from_bytes(&input, 0).expect("faled to parse parameters");

    assert_eq!(input.len() - cursor, 1);
    assert_eq!(
        parameters,
        Parameters { entrypoint: Entrypoint::Default, michelson: Span { start: 5, end: 7 } }
    );
    assert_eq!(&input[5..7], &[0xab, 0xcd]);
}

#[test]
fn simple() {
    const INPUT_HEX: &str = "02000000070a000000020202";

    let input = hex::decode(INPUT_HEX).expect("invalid hex input");

    let (parameters, _) = Parameters::from_bytes(&input, 0).expect("faled to parse parameters");

    assert_eq!(
        parameters,
        Parameters { entrypoint: Entrypoint::Do, michelson: Span { start: 5, end: input.len() } }
    );
}

#[test]
fn parameters_payload_truncated() {
    const MICHELSON_CODE: &[u8] = &[0xab, 0xcd];

    let mut input = vec![0];
    input.extend_from_slice(&(10u32).to_be_bytes()[..]);
    input.extend_from_slice(MICHELSON_CODE);

    let r = Parameters::from_bytes(&input, 0);
    assert_eq!(r, Err((ParserError::UnexpectedBufferEnd, 5)));
}

#[test]
fn zarith_consumes_through_first_stop_byte() {
    // continuation bit cleared at relative position 2: exactly 3 bytes consumed
    let input = [0x80u8, 0x81, 0x01, 0xFF, 0xFF];
    let (z, cursor) = Zarith::from_bytes(&input, 0, false).expect("failed to parse integer");
    assert_eq!(cursor, 3);
    assert_eq!(z, Zarith { is_negative: None, bytes: Span { start: 0, end: 3 } });
}

#[test]
fn zarith_incomplete_when_continuation_never_clears() {
    let input = [0x80u8, 0x81, 0xFF];
    for offset in 0..input.len() {
        let r = Zarith::from_bytes(&input, offset, false);
        assert_eq!(r, Err((ParserError::UnexpectedBufferEnd, offset)));
    }
    let r = Zarith::from_bytes(&[], 0, true);
    assert_eq!(r, Err((ParserError::UnexpectedBufferEnd, 0)));
}

#[test]
fn zarith_signed_reads_sign_bit() {
    let (neg, _) = Zarith::from_bytes(&[0x41], 0, true).expect("failed to parse integer");
    assert_eq!(neg.is_negative, Some(true));
    let (pos, _) = Zarith::from_bytes(&[0x01], 0, true).expect("failed to parse integer");
    assert_eq!(pos.is_negative, Some(false));
    let (unsigned, _) = Zarith::from_bytes(&[0x41], 0, false).expect("failed to parse integer");
    assert_eq!(unsigned.is_negative, None);
}

#[test]
fn boolean_reads_one_byte() {
    assert_eq!(boolean(&[0x00, 0xAA], 0), Ok((false, 1)));
    assert_eq!(boolean(&[0xFF], 0), Ok((true, 1)));
    assert_eq!(boolean(&[0x01], 0), Ok((true, 1)));
    assert_eq!(boolean(&[], 0), Err((ParserError::UnexpectedBufferEnd, 0)));
}

#[test]
fn public_key_hash_rejects_unknown_curve() {
    let mut input = vec![0x03u8];
    input.extend_from_slice(&[0u8; 20]);
    assert_eq!(public_key_hash(&input, 0), Err((ParserError::InvalidPubkeyEncoding, 0)));
    let (decoded, cursor) = public_key_hash(&[&[0x01u8][..], &[0x11u8; 20][..]].concat(), 0)
        .expect("failed to parse public key hash");
    assert_eq!(cursor, 21);
    assert_eq!(decoded, (Curve::Secp256K1, Span { start: 1, end: 21 }));
}

#[test]
fn contract_id_forms() {
    // originated contract: tag, 20 hash bytes, one padding byte
    let mut input = vec![0x01u8];
    input.extend_from_slice(&[0x22u8; 20]);
    input.push(0x00);
    let (decoded, cursor) = ContractID::from_bytes(&input, 0).expect("failed to parse contract");
    assert_eq!(cursor, 22);
    assert_eq!(decoded, ContractID::Originated(Span { start: 1, end: 21 }));

    // unknown tag
    assert_eq!(ContractID::from_bytes(&[0x02], 0), Err((ParserError::InvalidAddress, 0)));
}

const TRANSFER_HEX: &str = "0035e993d8c7aaa42b5e3ccd86a33390ececc73abd\
                            904e\
                            01\
                            0a\
                            0a\
                            e807\
                            000035e993d8c7aaa42b5e3ccd86a33390ececc73abd\
                            00";

#[test]
fn transfer() {
    let mut input = hex::decode(TRANSFER_HEX).expect("invalid input hex");
    input.extend_from_slice(&[0xDE, 0xEA, 0xBE, 0xEF]);

    let (parsed, cursor) = Transfer::from_bytes(&input, 0).expect("couldn't parse transfer");
    assert_eq!(input.len() - cursor, 4);

    let expected = Transfer {
        source: (Curve::Bip32Ed25519, Span { start: 1, end: 21 }),
        fee: Zarith { is_negative: None, bytes: Span { start: 21, end: 23 } },
        counter: Zarith { is_negative: None, bytes: Span { start: 23, end: 24 } },
        gas_limit: Zarith { is_negative: None, bytes: Span { start: 24, end: 25 } },
        storage_limit: Zarith { is_negative: None, bytes: Span { start: 25, end: 26 } },
        amount: Zarith { is_negative: None, bytes: Span { start: 26, end: 28 } },
        destination: ContractID::Implicit(Curve::Bip32Ed25519, Span { start: 30, end: 50 }),
        parameters: None,
    };

    assert_eq!(parsed, expected);
}

#[test]
fn transfer_truncated() {
    const INPUT_HEX: &str = "0035e993d8c7aaa42b5e3ccd86a33390ececc73abd904e01";

    let mut input = hex::decode(INPUT_HEX).expect("invalid input hex");
    input.extend_from_slice(&[0xDE, 0xEA, 0xBE, 0xEF]);

    // the four trailing bytes read as further integer fields, then the
    // destination is missing entirely
    let r = Transfer::from_bytes(&input, 0);
    assert!(matches!(r, Err((ParserError::UnexpectedBufferEnd, _))));
}

#[test]
fn transfer_every_truncation_is_incomplete() {
    let input = hex::decode(TRANSFER_HEX).expect("invalid input hex");
    let (_, consumed) = Transfer::from_bytes(&input, 0).expect("couldn't parse transfer");
    assert_eq!(consumed, input.len());
    for cut in 0..consumed {
        let r = Transfer::from_bytes(&input[..cut], 0);
        match r {
            Err((ParserError::UnexpectedBufferEnd, _)) => {},
            other => panic!("cut at {} gave {:?}", cut, other),
        }
    }
}

#[test]
fn contract_call() {
    const INPUT_HEX: &str = "0035e993d8c7aaa42b5e3ccd86a33390ececc73abd\
                             904e\
                             01\
                             0a\
                             0a\
                             e807\
                             000035e993d8c7aaa42b5e3ccd86a33390ececc73abd\
                             ff\
                             02000000070a000000020202";

    let input = hex::decode(INPUT_HEX).expect("invalid input hex");

    let (parsed, cursor) = Transfer::from_bytes(&input, 0).expect("couldn't parse transfer");
    assert_eq!(input.len() - cursor, 0);

    let expected = Transfer {
        source: (Curve::Bip32Ed25519, Span { start: 1, end: 21 }),
        fee: Zarith { is_negative: None, bytes: Span { start: 21, end: 23 } },
        counter: Zarith { is_negative: None, bytes: Span { start: 23, end: 24 } },
        gas_limit: Zarith { is_negative: None, bytes: Span { start: 24, end: 25 } },
        storage_limit: Zarith { is_negative: None, bytes: Span { start: 25, end: 26 } },
        amount: Zarith { is_negative: None, bytes: Span { start: 26, end: 28 } },
        destination: ContractID::Implicit(Curve::Bip32Ed25519, Span { start: 30, end: 50 }),
        parameters: Some(Parameters {
            entrypoint: Entrypoint::Do,
            michelson: Span { start: 56, end: 63 },
        }),
    };

    assert_eq!(parsed, expected);
    assert_eq!(input.len(), 63);
}

#[test]
fn transfer_getters_match_fields() {
    let input = hex::decode(TRANSFER_HEX).expect("invalid input hex");
    let (parsed, _) = Transfer::from_bytes(&input, 0).expect("couldn't parse transfer");
    assert_eq!(parsed.source(), parsed.source);
    assert_eq!(parsed.fee(), parsed.fee);
    assert_eq!(parsed.counter(), parsed.counter);
    assert_eq!(parsed.gas_limit(), parsed.gas_limit);
    assert_eq!(parsed.storage_limit(), parsed.storage_limit);
    assert_eq!(parsed.amount(), parsed.amount);
    assert_eq!(parsed.destination(), parsed.destination);
    assert_eq!(parsed.parameters(), parsed.parameters);

    let params = Parameters { entrypoint: Entrypoint::Root, michelson: Span { start: 5, end: 9 } };
    assert_eq!(params.entrypoint(), Entrypoint::Root);
    assert_eq!(params.michelson(), Span { start: 5, end: 9 });
}

#[test]
fn transfer_rejects_bad_destination_tag() {
    let mut input = hex::decode(TRANSFER_HEX).expect("invalid input hex");
    input[28] = 0x02;
    assert_eq!(Transfer::from_bytes(&input, 0), Err((ParserError::InvalidAddress, 28)));
}

#[test]
fn decoders_work_at_nonzero_offsets() {
    // the same custom entrypoint embedded after two leading bytes
    let input = [0x99u8, 0x98, 0xFF, 0x02, 0x68, 0x69, 0x55];
    let (custom, cursor) =
        Entrypoint::from_bytes(&input, 2).expect("failed to parse custom entrypoint");
    assert_eq!(custom, Entrypoint::Custom(Span { start: 4, end: 6 }));
    assert_eq!(cursor, 6);
    assert_eq!(custom.display_name(&input), Some("hi"));

    // the continuation bit stays set until the 0x02 byte at index 3
    let (z, cursor) = Zarith::from_bytes(&input, 0, false).expect("failed to parse integer");
    assert_eq!(z.bytes, Span { start: 0, end: 4 });
    assert_eq!(cursor, 4);
}
