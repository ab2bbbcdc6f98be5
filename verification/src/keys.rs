//! ED25519 public keys: extraction of the raw key from the DER
//! SubjectPublicKeyInfo that KMS `GetPublicKey` returns, and the `.pub` file
//! that `ostree sign --verify --keys-dir=<dir>` reads.
//!
//! RFC 8410 fixes the ED25519 SPKI as a 44-byte DER blob whose first 12 bytes
//! never change:
//! ```text
//! 30 2a            SEQUENCE, 42 bytes
//!   30 05          SEQUENCE, 5 bytes
//!     06 03 2b 65 70   OID 1.3.101.112 (id-Ed25519)
//!   03 21 00       BIT STRING, 33 bytes, 0 unused bits
//!     <32-byte key>
//! ```
use vstd::prelude::*;

use crate::encoding::{
    base64_decode, base64_standard, is_base64_char, lemma_base64_canonical, lemma_base64_round_trip,
    lemma_base64_shape, rfc4648_alphabet, sextet,
};
use crate::text::{decimal, hex_list, push_decimal, push_hex_list};

verus! {

/// Length of the fixed DER header in front of an ED25519 key.
pub const ED25519_SPKI_HEADER_LEN: usize = 12;

/// Length of a raw ED25519 public key.
pub const ED25519_PUBLIC_KEY_LEN: usize = 32;

/// Length of a whole ED25519 SubjectPublicKeyInfo.
pub const ED25519_SPKI_LEN: usize = 44;

/// The fixed 12-byte DER header of an ED25519 SubjectPublicKeyInfo.
pub const ED25519_SPKI_HEADER: [u8; 12] = [
    0x30, 0x2a, 0x30, 0x05, 0x06, 0x03, 0x2b, 0x65, 0x70, 0x03, 0x21, 0x00,
];

/// The header as a sequence of bytes.
pub open spec fn spki_header() -> Seq<u8> {
    seq![0x30u8, 0x2au8, 0x30u8, 0x05u8, 0x06u8, 0x03u8, 0x2bu8, 0x65u8, 0x70u8, 0x03u8, 0x21u8, 0x00u8]
}

/// `der` is an ED25519 SPKI: 44 bytes that start with the fixed header.
pub open spec fn is_ed25519_spki(der: Seq<u8>) -> bool {
    &&& der.len() == 44
    &&& der.subrange(0, 12) == spki_header()
}

/// The DER SPKI that carries the raw key `key`.
pub open spec fn spki_of_key(key: Seq<u8>) -> Seq<u8> {
    spki_header() + key
}

/// Why a key could not be exported.
#[derive(Debug)]
pub enum KeyError {
    /// The KMS response carried no public key.
    MissingPublicKey,
    /// The DER blob is not 44 bytes long; `len` is its length.
    UnexpectedLength { len: usize },
    /// The DER blob is 44 bytes long but starts with `found`, not the ED25519 header.
    UnexpectedHeader { found: [u8; 12] },
}

/// The text of a key error, as the command line reports it.
pub open spec fn key_error_message(e: KeyError) -> Seq<char> {
    match e {
        KeyError::MissingPublicKey => "KMS response is missing the public_key field"@,
        KeyError::UnexpectedLength { len } => "unexpected SPKI length: "@ + decimal(len as nat)
            + " bytes (expected "@ + decimal(44) + " for ED25519)"@,
        KeyError::UnexpectedHeader { found } => "unexpected SPKI header: "@ + hex_list(found@)
            + "\nexpected: "@ + hex_list(spki_header())
            + "\nThe KMS key may not be an ED25519 key."@,
    }
}

impl KeyError {
    /// The message describing this error.
    pub fn to_string(&self) -> (res: String)
        ensures
            res@ == key_error_message(*self),
    {
        match self {
            KeyError::MissingPublicKey => String::from_str(
                "KMS response is missing the public_key field",
            ),
            KeyError::UnexpectedLength { len } => {
                let mut s = String::from_str("unexpected SPKI length: ");
                push_decimal(&mut s, *len);
                s.append(" bytes (expected ");
                push_decimal(&mut s, ED25519_SPKI_LEN);
                s.append(" for ED25519)");
                s
            },
            KeyError::UnexpectedHeader { found } => {
                let mut s = String::from_str("unexpected SPKI header: ");
                push_hex_list(&mut s, found.as_slice());
                s.append("\nexpected: ");
                let header = ED25519_SPKI_HEADER;
                assert(header@ =~= spki_header());
                push_hex_list(&mut s, header.as_slice());
                s.append("\nThe KMS key may not be an ED25519 key.");
                s
            },
        }
    }
}

/// Extracts the raw 32-byte ED25519 public key from a DER SPKI blob.
///
/// The blob must be exactly 44 bytes and begin with the fixed ED25519 header;
/// the key is its trailing 32 bytes.
pub fn parse_ed25519_spki(der_bytes: &[u8]) -> (res: Result<[u8; 32], KeyError>)
    ensures
        res is Ok <==> is_ed25519_spki(der_bytes@),
        match res {
            Ok(key) => key@ == der_bytes@.subrange(12, 44),
            Err(KeyError::UnexpectedLength { len }) => der_bytes@.len() != 44 && len
                == der_bytes@.len(),
            Err(KeyError::UnexpectedHeader { found }) => {
                &&& der_bytes@.len() == 44
                &&& der_bytes@.subrange(0, 12) != spki_header()
                &&& found@ == der_bytes@.subrange(0, 12)
            },
            Err(KeyError::MissingPublicKey) => false,
        },
{
    if der_bytes.len() != ED25519_SPKI_LEN {
        return Err(KeyError::UnexpectedLength { len: der_bytes.len() });
    }
    let header = ED25519_SPKI_HEADER;
    assert(header@ =~= spki_header());
    let mut found = [0u8; 12];
    let mut matches = true;
    let mut i: usize = 0;
    while i < ED25519_SPKI_HEADER_LEN
        invariant
            der_bytes@.len() == 44,
            header@ == spki_header(),
            i <= 12,
            forall|j: int| 0 <= j < i ==> found@[j] == der_bytes@[j],
            matches <==> (forall|j: int| 0 <= j < i ==> der_bytes@[j] == header@[j]),
        decreases 12 - i,
    {
        found[i] = der_bytes[i];
        if der_bytes[i] != header[i] {
            matches = false;
        }
        i = i + 1;
    }
    assert(found@ =~= der_bytes@.subrange(0, 12));
    if !matches {
        assert(der_bytes@.subrange(0, 12) != spki_header()) by {
            let j = choose|j: int| 0 <= j < 12 && der_bytes@[j] != header@[j];
            assert(der_bytes@.subrange(0, 12)[j] != spki_header()[j]);
        }
        return Err(KeyError::UnexpectedHeader { found });
    }
    assert(der_bytes@.subrange(0, 12) =~= spki_header());
    let mut key = [0u8; 32];
    let mut k: usize = 0;
    while k < ED25519_PUBLIC_KEY_LEN
        invariant
            der_bytes@.len() == 44,
            k <= 32,
            forall|j: int| 0 <= j < k ==> key@[j] == der_bytes@[j + 12],
        decreases 32 - k,
    {
        key[k] = der_bytes[k + ED25519_SPKI_HEADER_LEN];
        k = k + 1;
    }
    assert(key@ =~= der_bytes@.subrange(12, 44));
    Ok(key)
}

/// The fixed header is the DER prefix of RFC 8410's ED25519 key: a SEQUENCE
/// whose length covers the rest of the 44 bytes, holding a 5-byte SEQUENCE
/// with the OBJECT IDENTIFIER 1.3.101.112 (first byte `40 * 1 + 3`), then a
/// BIT STRING of one unused-bits byte (zero) and the 32 key bytes.
pub proof fn lemma_spki_header_is_der()
    ensures
        spki_header().len() == 12,
        spki_header()[0] == 0x30 && spki_header()[1] == 44 - 2,
        spki_header()[2] == 0x30 && spki_header()[3] == 5,
        spki_header()[4] == 0x06 && spki_header()[5] == 3,
        spki_header()[6] == 40 * 1 + 3 && spki_header()[7] == 101 && spki_header()[8] == 112,
        spki_header()[9] == 0x03 && spki_header()[10] == 32 + 1 && spki_header()[11] == 0,
{
}

/// Every raw key wrapped in the fixed header is an ED25519 SPKI, and stripping
/// the header gives the key back; every ED25519 SPKI is such a wrapped key.
pub proof fn lemma_spki_header_strip(key: Seq<u8>, der: Seq<u8>)
    requires
        key.len() == 32,
    ensures
        is_ed25519_spki(spki_of_key(key)),
        spki_of_key(key).subrange(12, 44) == key,
        is_ed25519_spki(der) ==> der == spki_of_key(der.subrange(12, 44)),
{
    assert(spki_of_key(key).subrange(0, 12) =~= spki_header());
    assert(spki_of_key(key).subrange(12, 44) =~= key);
    if is_ed25519_spki(der) {
        assert(der =~= spki_of_key(der.subrange(12, 44)));
    }
}

/// The key carried by the `public_key` field of a KMS `GetPublicKey`
/// response, `None` where the response has no such field.
pub fn public_key_from_response(public_key: Option<&[u8]>) -> (res: Result<[u8; 32], KeyError>)
    ensures
        match public_key {
            None => res matches Err(KeyError::MissingPublicKey),
            Some(der) => res is Ok <==> is_ed25519_spki(der@),
        },
        match (public_key, res) {
            (Some(der), Ok(key)) => key@ == der@.subrange(12, 44),
            (Some(der), Err(KeyError::UnexpectedLength { len })) => der@.len() != 44 && len
                == der@.len(),
            (Some(der), Err(KeyError::UnexpectedHeader { found })) => {
                &&& der@.len() == 44
                &&& der@.subrange(0, 12) != spki_header()
                &&& found@ == der@.subrange(0, 12)
            },
            (Some(_), Err(KeyError::MissingPublicKey)) => false,
            (None, _) => true,
        },
{
    match public_key {
        None => Err(KeyError::MissingPublicKey),
        Some(der) => parse_ed25519_spki(der),
    }
}

/// Calls `base64::Engine::encode` on `base64::engine::general_purpose::STANDARD`.
/// Claimed: the result is the standard, `=`-padded base64 text of the key, as
/// `base64_standard` spells out RFC 4648 section 4.
#[verifier::external_body]
fn encode_base64(raw_key: &[u8; 32]) -> (res: String)
    ensures
        res@ == base64_standard(raw_key@),
{
    base64::Engine::encode(&base64::engine::general_purpose::STANDARD, raw_key)
}

/// The contents of the `.pub` file for `raw_key`: its standard base64 text on a
/// single line of 44 characters, with no trailing newline; decoding it gives
/// the key back. The first 43 characters are the RFC 4648 characters of the
/// key's six-bit groups, the last zero-filled; the 44th is the one `=` pad.
pub fn pubkey_file_contents(raw_key: &[u8; 32]) -> (res: String)
    ensures
        res@ == base64_standard(raw_key@),
        res@.len() == 44,
        !res@.contains('\n'),
        base64_decode(res@) == raw_key@,
        forall|i: int|
            0 <= i < 43 ==> #[trigger] res@[i] == rfc4648_alphabet()[sextet(raw_key@, i)] && res@[i]
                != '=',
        res@[43] == '=',
{
    let res = encode_base64(raw_key);
    proof {
        lemma_base64_canonical(raw_key@);
        lemma_base64_shape(raw_key@);
        lemma_base64_round_trip(raw_key@);
        if res@.contains('\n') {
            let i = choose|i: int| 0 <= i < res@.len() && res@[i] == '\n';
            assert(is_base64_char(res@[i]));
        }
    }
    res
}

/// The file name of the key with version label `key_version`: `<key_version>.pub`.
pub fn pubkey_file_name(key_version: &str) -> (res: String)
    ensures
        res@ == key_version@ + ".pub"@,
{
    let mut name = String::from_str(key_version);
    name.append(".pub");
    name
}

} // verus!
