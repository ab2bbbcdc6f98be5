//! Signing abstraction, and the checks around a KMS `Sign` call.
//!
//! KMS signs with `ED25519_SHA_512` and `MessageType::Raw`: standard ED25519
//! over the raw commit bytes, as libsodium (and so `ostree sign --verify`)
//! checks it. KMS caps `Raw` messages at 4096 bytes, so larger commits are
//! refused before any request is made.
use vstd::prelude::*;

use crate::text::{decimal, push_decimal};

verus! {

/// Largest message, in bytes, that KMS accepts with `MessageType::Raw`.
pub const KMS_MAX_RAW_MESSAGE_LEN: usize = 4096;

/// Why a commit could not be signed.
#[derive(Debug)]
pub enum SignError {
    /// The commit's serialized bytes number `len`, more than KMS accepts.
    MessageTooLarge { len: usize },
    /// The signing request itself failed; `reason` is what the service said.
    RequestFailed { reason: String },
    /// The KMS response carried no signature.
    MissingSignature,
    /// The returned signature has `len` bytes, not 64.
    UnexpectedSignatureLength { len: usize },
    /// Another signing backend failed; `message` says why, in its own words.
    Backend { message: String },
}

/// The text of a signing error, as the command line reports it.
pub open spec fn sign_error_message(e: SignError) -> Seq<char> {
    match e {
        SignError::MessageTooLarge { len } => "commit GVariant is "@ + decimal(len as nat)
            + " bytes, exceeding the KMS 4096-byte Raw message size limit"@,
        SignError::RequestFailed { reason } => "KMS Sign request failed: "@ + reason@,
        SignError::MissingSignature => "KMS response is missing the signature field"@,
        SignError::UnexpectedSignatureLength { len } => "KMS returned a signature of "@ + decimal(
            len as nat,
        ) + " bytes; expected exactly 64 bytes for ED25519"@,
        SignError::Backend { message } => message@,
    }
}

impl SignError {
    /// The message describing this error.
    pub fn to_string(&self) -> (res: String)
        ensures
            res@ == sign_error_message(*self),
    {
        match self {
            SignError::MessageTooLarge { len } => {
                let mut s = String::from_str("commit GVariant is ");
                push_decimal(&mut s, *len);
                s.append(" bytes, exceeding the KMS 4096-byte Raw message size limit");
                s
            },
            SignError::RequestFailed { reason } => {
                let mut s = String::from_str("KMS Sign request failed: ");
                s.append(reason.as_str());
                s
            },
            SignError::MissingSignature => String::from_str(
                "KMS response is missing the signature field",
            ),
            SignError::UnexpectedSignatureLength { len } => {
                let mut s = String::from_str("KMS returned a signature of ");
                push_decimal(&mut s, *len);
                s.append(" bytes; expected exactly 64 bytes for ED25519");
                s
            },
            SignError::Backend { message } => message.clone(),
        }
    }
}

/// Signs raw commit bytes, producing a 64-byte ED25519 signature.
///
/// Implementations take the raw serialized GVariant bytes of an OSTree commit
/// object and produce a standard ED25519 signature over them; the signature is
/// stored verbatim as one `ay` child of the `(aay)` value under
/// `ostree.sign.ed25519`. A new backend (a local key file, a vault) implements
/// this trait.
pub trait Signer {
    /// The pending signature that [`Signer::sign`] hands back; awaiting it
    /// gives the signature or the reason it could not be made.
    type Signing<'a>: std::future::Future<Output = Result<[u8; 64], SignError>> where Self: 'a;

    /// Signs `commit_bytes`.
    fn sign<'a>(&'a self, commit_bytes: &'a [u8]) -> Self::Signing<'a>;
}

/// Refuses a commit whose serialized bytes exceed the KMS `Raw` message limit.
pub fn check_message_size(commit_bytes: &[u8]) -> (res: Result<(), SignError>)
    ensures
        res is Ok <==> commit_bytes@.len() <= 4096,
        res matches Err(e) ==> e == (SignError::MessageTooLarge { len: commit_bytes@.len() as usize }),
{
    if commit_bytes.len() > KMS_MAX_RAW_MESSAGE_LEN {
        Err(SignError::MessageTooLarge { len: commit_bytes.len() })
    } else {
        Ok(())
    }
}

/// How KMS is asked to treat the message.
#[derive(Debug, Clone, Copy, PartialEq, Eq, Structural)]
pub enum MessageKind {
    /// The message itself, not a digest (`MessageType::Raw`).
    Raw,
}

/// The signing algorithm KMS is asked to use.
#[derive(Debug, Clone, Copy, PartialEq, Eq, Structural)]
pub enum SigningAlgorithm {
    /// Standard ED25519 (`ED25519_SHA_512`), which libsodium verifies; the
    /// prehash variant `ED25519_PH_SHA_512` would fail `ostree sign --verify`.
    Ed25519Sha512,
}

/// A KMS `Sign` request, as plain values.
#[derive(Debug)]
pub struct SignRequest {
    /// KMS key identifier: an alias (`alias/my-key`), key ID, or full ARN.
    pub key_id: String,
    /// The bytes to sign: the serialized commit.
    pub message: Vec<u8>,
    pub message_kind: MessageKind,
    pub algorithm: SigningAlgorithm,
}

/// The KMS `Sign` request for `commit_bytes` under `key_id`: the raw commit
/// bytes, `MessageType::Raw`, `ED25519_SHA_512`. A commit over the KMS `Raw`
/// message limit gets no request.
pub fn sign_request(key_id: &str, commit_bytes: &[u8]) -> (res: Result<SignRequest, SignError>)
    ensures
        res is Ok <==> commit_bytes@.len() <= 4096,
        match res {
            Ok(req) => {
                &&& req.key_id@ == key_id@
                &&& req.message@ == commit_bytes@
                &&& req.message_kind == MessageKind::Raw
                &&& req.algorithm == SigningAlgorithm::Ed25519Sha512
            },
            Err(e) => e == (SignError::MessageTooLarge { len: commit_bytes@.len() as usize }),
        },
{
    match check_message_size(commit_bytes) {
        Err(e) => Err(e),
        Ok(()) => Ok(
            SignRequest {
                key_id: String::from_str(key_id),
                message: vstd::slice::slice_to_vec(commit_bytes),
                message_kind: MessageKind::Raw,
                algorithm: SigningAlgorithm::Ed25519Sha512,
            },
        ),
    }
}

/// The signature carried by the `signature` field of a KMS `Sign` response,
/// `None` where the response has no such field: it must be exactly 64 bytes.
pub fn signature_from_response(signature: Option<&[u8]>) -> (res: Result<[u8; 64], SignError>)
    ensures
        res is Ok <==> (signature matches Some(s) && s@.len() == 64),
        match (signature, res) {
            (Some(s), Ok(sig)) => sig@ == s@,
            (None, Err(e)) => e == SignError::MissingSignature,
            (Some(s), Err(e)) => e == (SignError::UnexpectedSignatureLength { len: s@.len() as usize }),
            (None, Ok(_)) => false,
        },
{
    match signature {
        None => Err(SignError::MissingSignature),
        Some(bytes) => {
            if bytes.len() != 64 {
                return Err(SignError::UnexpectedSignatureLength { len: bytes.len() });
            }
            let mut sig = [0u8; 64];
            let mut k: usize = 0;
            while k < 64
                invariant
                    bytes@.len() == 64,
                    k <= 64,
                    forall|t: int| 0 <= t < k ==> sig@[t] == bytes@[t],
                decreases 64 - k,
            {
                sig[k] = bytes[k];
                k = k + 1;
            }
            assert(sig@ =~= bytes@);
            Ok(sig)
        },
    }
}

} // verus!
