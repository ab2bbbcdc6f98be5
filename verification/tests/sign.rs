use ostree_repo_utils::sign::{
    check_message_size, sign_request, signature_from_response, MessageKind, SignError,
    SigningAlgorithm,
};

#[test]
fn message_at_limit_is_accepted() {
    assert!(check_message_size(&vec![0u8; 4096]).is_ok());
    assert!(check_message_size(&[]).is_ok());
}

#[test]
fn message_over_limit_is_refused() {
    let err = check_message_size(&vec![0u8; 4097]).unwrap_err();
    assert!(matches!(err, SignError::MessageTooLarge { len: 4097 }));
    assert_eq!(
        err.to_string(),
        "commit GVariant is 4097 bytes, exceeding the KMS 4096-byte Raw message size limit"
    );
}

#[test]
fn returned_signature_is_copied() {
    let bytes: Vec<u8> = (0u8..64).collect();
    let sig = signature_from_response(Some(&bytes)).unwrap();
    assert_eq!(sig.to_vec(), bytes);
}

#[test]
fn missing_signature_is_reported() {
    let err = signature_from_response(None).unwrap_err();
    assert!(matches!(err, SignError::MissingSignature));
    assert_eq!(err.to_string(), "KMS response is missing the signature field");
}

#[test]
fn short_signature_is_refused() {
    let err = signature_from_response(Some(&[1u8; 63])).unwrap_err();
    assert!(matches!(err, SignError::UnexpectedSignatureLength { len: 63 }));
    assert_eq!(
        err.to_string(),
        "KMS returned a signature of 63 bytes; expected exactly 64 bytes for ED25519"
    );
    let err = signature_from_response(Some(&[1u8; 65])).unwrap_err();
    assert!(matches!(err, SignError::UnexpectedSignatureLength { len: 65 }));
}

#[test]
fn request_failure_carries_the_reason() {
    let err = SignError::RequestFailed { reason: "AccessDeniedException".to_string() };
    assert_eq!(err.to_string(), "KMS Sign request failed: AccessDeniedException");
}

#[test]
fn sign_request_is_raw_ed25519_over_commit_bytes() {
    let commit = vec![0x5au8; 600];
    let req = sign_request("alias/my-ed25519-key", &commit).unwrap();
    assert_eq!(req.key_id, "alias/my-ed25519-key");
    assert_eq!(req.message, commit);
    assert_eq!(req.message_kind, MessageKind::Raw);
    assert_eq!(req.algorithm, SigningAlgorithm::Ed25519Sha512);
}

#[test]
fn sign_request_refuses_oversized_commit() {
    let err = sign_request("k", &vec![0u8; 5000]).unwrap_err();
    assert!(matches!(err, SignError::MessageTooLarge { len: 5000 }));
    assert!(sign_request("k", &vec![0u8; 4096]).is_ok());
}

#[test]
fn backend_error_carries_its_own_message() {
    let err = SignError::Backend { message: "vault sealed".to_string() };
    assert_eq!(err.to_string(), "vault sealed");
}
