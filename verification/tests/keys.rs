use ostree_repo_utils::keys::{
    parse_ed25519_spki, pubkey_file_contents, pubkey_file_name, public_key_from_response,
    KeyError, ED25519_SPKI_HEADER,
};

#[test]
fn valid_spki_header_parses() {
    let mut der = Vec::new();
    der.extend_from_slice(&ED25519_SPKI_HEADER);
    der.extend_from_slice(&[0xabu8; 32]);

    let key = parse_ed25519_spki(&der).expect("valid SPKI should parse");
    assert_eq!(key, [0xabu8; 32]);
}

#[test]
fn wrong_header_returns_error() {
    let mut der = Vec::new();
    der.extend_from_slice(&[0x00u8; 12]); // wrong header
    der.extend_from_slice(&[0xabu8; 32]);

    let err = parse_ed25519_spki(&der).expect_err("wrong header should be rejected");
    let msg = err.to_string();
    assert!(
        msg.contains("unexpected SPKI header"),
        "error message should mention SPKI header, got: {msg}"
    );
}

#[test]
fn wrong_length_returns_error() {
    let err = parse_ed25519_spki(&[0u8; 10]).expect_err("short blob should be rejected");
    let msg = err.to_string();
    assert!(
        msg.contains("unexpected SPKI length"),
        "error message should mention SPKI length, got: {msg}"
    );
}

#[test]
fn spki_header_bytes_are_the_ed25519_header() {
    assert_eq!(
        ED25519_SPKI_HEADER,
        [0x30, 0x2a, 0x30, 0x05, 0x06, 0x03, 0x2b, 0x65, 0x70, 0x03, 0x21, 0x00]
    );
}

#[test]
fn key_is_trailing_32_bytes() {
    let key: Vec<u8> = (0u8..32).collect();
    let mut der = ED25519_SPKI_HEADER.to_vec();
    der.extend_from_slice(&key);
    let parsed = parse_ed25519_spki(&der).expect("valid SPKI should parse");
    assert_eq!(parsed.to_vec(), key);
}

#[test]
fn wrong_length_message_is_exact() {
    let err = parse_ed25519_spki(&[0u8; 10]).unwrap_err();
    assert!(matches!(err, KeyError::UnexpectedLength { len: 10 }));
    assert_eq!(
        err.to_string(),
        "unexpected SPKI length: 10 bytes (expected 44 for ED25519)"
    );
}

#[test]
fn long_blob_with_valid_header_is_rejected_by_length() {
    let mut der = ED25519_SPKI_HEADER.to_vec();
    der.extend_from_slice(&[0x11u8; 33]);
    let err = parse_ed25519_spki(&der).unwrap_err();
    assert!(matches!(err, KeyError::UnexpectedLength { len: 45 }));
    assert_eq!(
        err.to_string(),
        "unexpected SPKI length: 45 bytes (expected 44 for ED25519)"
    );
}

#[test]
fn empty_blob_is_rejected_by_length() {
    let err = parse_ed25519_spki(&[]).unwrap_err();
    assert!(matches!(err, KeyError::UnexpectedLength { len: 0 }));
    assert_eq!(
        err.to_string(),
        "unexpected SPKI length: 0 bytes (expected 44 for ED25519)"
    );
}

#[test]
fn wrong_header_message_is_exact() {
    let mut der = ED25519_SPKI_HEADER.to_vec();
    der[8] = 0x71; // OID 1.3.101.113 (Ed448)
    der.extend_from_slice(&[0xabu8; 32]);
    let err = parse_ed25519_spki(&der).unwrap_err();
    match &err {
        KeyError::UnexpectedHeader { found } => assert_eq!(found[..], der[..12]),
        other => panic!("expected a header error, got {other:?}"),
    }
    assert_eq!(
        err.to_string(),
        "unexpected SPKI header: [30, 2a, 30, 05, 06, 03, 2b, 65, 71, 03, 21, 00]\n\
         expected: [30, 2a, 30, 05, 06, 03, 2b, 65, 70, 03, 21, 00]\n\
         The KMS key may not be an ED25519 key."
    );
}

#[test]
fn header_message_matches_debug_hex_rendering() {
    let found = [0xffu8, 0x00, 0x0a, 0xa0, 0x10, 0x01, 0x99, 0x7f, 0x80, 0xfe, 0x09, 0x90];
    let err = KeyError::UnexpectedHeader { found };
    let expected = format!(
        "unexpected SPKI header: {:02x?}\nexpected: {:02x?}\nThe KMS key may not be an ED25519 key.",
        &found[..],
        &ED25519_SPKI_HEADER[..]
    );
    assert_eq!(err.to_string(), expected);
}

#[test]
fn missing_public_key_is_reported() {
    let err = public_key_from_response(None).unwrap_err();
    assert!(matches!(err, KeyError::MissingPublicKey));
    assert_eq!(err.to_string(), "KMS response is missing the public_key field");
}

#[test]
fn public_key_from_response_parses_present_blob() {
    let mut der = ED25519_SPKI_HEADER.to_vec();
    der.extend_from_slice(&[0x42u8; 32]);
    assert_eq!(public_key_from_response(Some(&der)).unwrap(), [0x42u8; 32]);
    let err = public_key_from_response(Some(&der[..43])).unwrap_err();
    assert!(matches!(err, KeyError::UnexpectedLength { len: 43 }));
}

#[test]
fn pubkey_file_contents_is_standard_base64() {
    assert_eq!(
        pubkey_file_contents(&[0xabu8; 32]),
        "q6urq6urq6urq6urq6urq6urq6urq6urq6urq6urq6s="
    );
    let mut key = [0u8; 32];
    for (i, b) in key.iter_mut().enumerate() {
        *b = i as u8;
    }
    let text = pubkey_file_contents(&key);
    assert_eq!(text, "AAECAwQFBgcICQoLDA0ODxAREhMUFRYXGBkaGxwdHh8=");
    assert_eq!(text.len(), 44);
    assert!(!text.contains('\n'));
}

#[test]
fn pubkey_file_contents_decodes_to_key() {
    for fill in [0x00u8, 0x01, 0x7f, 0xab, 0xff] {
        let mut key = [fill; 32];
        key[0] = fill.wrapping_add(3);
        key[31] = fill.wrapping_mul(5);
        let text = pubkey_file_contents(&key);
        let decoded =
            base64::Engine::decode(&base64::engine::general_purpose::STANDARD, text.as_bytes())
                .expect("the .pub text should decode");
        assert_eq!(decoded, key.to_vec());
    }
}

#[test]
fn pubkey_file_name_appends_pub() {
    assert_eq!(pubkey_file_name("prod-v1"), "prod-v1.pub");
    assert_eq!(pubkey_file_name(""), ".pub");
}
