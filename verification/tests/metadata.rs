use ostree_repo_utils::metadata::{
    decode_signatures, encode_signatures, signatures_from_metadata, MetadataError,
    SIGN_ED25519_KEY, SIGN_ED25519_TYPE,
};

#[test]
fn metadata_key_and_type_are_ostree_ones() {
    assert_eq!(SIGN_ED25519_KEY, "ostree.sign.ed25519");
    assert_eq!(SIGN_ED25519_TYPE, "(aay)");
}

#[test]
fn encoded_signatures_read_back_unchanged() {
    let sig1 = [0xabu8; 64];
    let sig2 = [0xcdu8; 64];
    let sigs: &[[u8; 64]] = &[sig1, sig2];

    let written = encode_signatures(sigs);
    assert_eq!(written.len(), 2);
    for (i, expected) in sigs.iter().enumerate() {
        assert_eq!(written[i].len(), 64);
        assert_eq!(written[i], expected.to_vec());
    }

    let children: Vec<Option<Vec<u8>>> = written.into_iter().map(Some).collect();
    let read = decode_signatures(&children).expect("stored signatures should read back");
    assert_eq!(read, vec![sig1, sig2]);
}

#[test]
fn empty_signature_array_reads_as_empty() {
    assert!(encode_signatures(&[]).is_empty());
    assert!(decode_signatures(&Vec::new()).unwrap().is_empty());
}

#[test]
fn absent_metadata_reads_as_no_signatures() {
    assert!(signatures_from_metadata(None).unwrap().is_empty());
    let children = vec![Some(vec![7u8; 64])];
    assert_eq!(signatures_from_metadata(Some(&children)).unwrap(), vec![[7u8; 64]]);
}

#[test]
fn child_of_other_type_is_rejected() {
    let children = vec![Some(vec![1u8; 64]), None, Some(vec![2u8; 3])];
    let err = decode_signatures(&children).unwrap_err();
    assert!(matches!(err, MetadataError::UnexpectedType { index: 1 }));
    assert_eq!(err.to_string(), "signature 1 has unexpected GVariant type");
}

#[test]
fn child_of_wrong_length_is_rejected() {
    let children = vec![Some(vec![1u8; 64]), Some(vec![1u8; 64]), Some(vec![2u8; 63]), None];
    let err = decode_signatures(&children).unwrap_err();
    assert!(matches!(err, MetadataError::WrongLength { index: 2, len: 63 }));
    assert_eq!(err.to_string(), "signature 2 has wrong length: 63");
}

#[test]
fn error_index_and_length_render_in_decimal() {
    let err = MetadataError::WrongLength { index: 1234, len: 100000 };
    assert_eq!(err.to_string(), "signature 1234 has wrong length: 100000");
    let err = MetadataError::UnexpectedType { index: usize::MAX };
    assert_eq!(
        err.to_string(),
        format!("signature {} has unexpected GVariant type", usize::MAX)
    );
}
