//! The ED25519 signature list in an OSTree commit's detached metadata.
//!
//! OSTree keeps per-commit metadata as an `a{sv}` dictionary. The signatures
//! live under `ostree.sign.ed25519` as a value of GVariant type `(aay)`: a
//! 1-tuple around an array of byte arrays, each a raw 64-byte signature.
//! `ostree sign --verify` looks for exactly `(aay)`.
//!
//! Here the array is held as plain values. Reading it, each child of the `aay`
//! array is `Some(bytes)` where the child is an `ay`, `None` where it has
//! another type; writing it, each signature becomes one `ay` child.
use vstd::prelude::*;

use crate::text::{decimal, push_decimal};

verus! {

/// Detached-metadata key under which ED25519 signatures are stored.
pub const SIGN_ED25519_KEY: &'static str = "ostree.sign.ed25519";

/// GVariant type string of the value stored under [`SIGN_ED25519_KEY`].
pub const SIGN_ED25519_TYPE: &'static str = "(aay)";

/// Length of a raw ED25519 signature.
pub const ED25519_SIGNATURE_LEN: usize = 64;

/// Why a stored signature list could not be read.
#[derive(Debug)]
pub enum MetadataError {
    /// Child `index` of the signature array is not a byte array.
    UnexpectedType { index: usize },
    /// Child `index` of the signature array holds `len` bytes, not 64.
    WrongLength { index: usize, len: usize },
}

/// The text of a metadata error, as the command line reports it.
pub open spec fn metadata_error_message(e: MetadataError) -> Seq<char> {
    match e {
        MetadataError::UnexpectedType { index } => "signature "@ + decimal(index as nat)
            + " has unexpected GVariant type"@,
        MetadataError::WrongLength { index, len } => "signature "@ + decimal(index as nat)
            + " has wrong length: "@ + decimal(len as nat),
    }
}

impl MetadataError {
    /// The message describing this error.
    pub fn to_string(&self) -> (res: String)
        ensures
            res@ == metadata_error_message(*self),
    {
        let mut s = String::from_str("signature ");
        match self {
            MetadataError::UnexpectedType { index } => {
                push_decimal(&mut s, *index);
                s.append(" has unexpected GVariant type");
            },
            MetadataError::WrongLength { index, len } => {
                push_decimal(&mut s, *index);
                s.append(" has wrong length: ");
                push_decimal(&mut s, *len);
            },
        }
        s
    }
}

/// The children of a stored signature array, each by its bytes where it is a
/// byte array.
pub open spec fn entry_views(entries: Seq<Option<Vec<u8>>>) -> Seq<Option<Seq<u8>>> {
    entries.map_values(
        |e: Option<Vec<u8>>|
            match e {
                Some(b) => Some(b@),
                None => None,
            },
    )
}

/// A child that is a byte array of exactly 64 bytes.
pub open spec fn is_signature_entry(e: Option<Seq<u8>>) -> bool {
    e matches Some(b) && b.len() == 64
}

/// Every child is a 64-byte signature.
pub open spec fn all_signature_entries(entries: Seq<Option<Seq<u8>>>) -> bool {
    forall|i: int| 0 <= i < entries.len() ==> is_signature_entry(#[trigger] entries[i])
}

/// The bytes of each child.
pub open spec fn entry_bytes(entries: Seq<Option<Seq<u8>>>) -> Seq<Seq<u8>> {
    entries.map_values(|e: Option<Seq<u8>>| e.unwrap())
}

/// Each signature by its bytes.
pub open spec fn signature_bytes(sigs: Seq<[u8; 64]>) -> Seq<Seq<u8>> {
    sigs.map_values(|s: [u8; 64]| s@)
}

/// `err` describes the first child of `entries` that is not a 64-byte signature.
pub open spec fn is_first_bad_entry(entries: Seq<Option<Seq<u8>>>, err: MetadataError) -> bool {
    let index = match err {
        MetadataError::UnexpectedType { index } => index,
        MetadataError::WrongLength { index, .. } => index,
    };
    &&& index < entries.len()
    &&& forall|j: int| 0 <= j < index ==> is_signature_entry(#[trigger] entries[j])
    &&& match err {
        MetadataError::UnexpectedType { .. } => entries[index as int] is None,
        MetadataError::WrongLength { len, .. } => entries[index as int] matches Some(b) && b.len()
            == len && len != 64,
    }
}

/// `entries` holds exactly the signatures `sigs`, in order: one child per
/// signature, each a byte array whose bytes are that signature's, unchanged.
pub open spec fn stores_signatures(entries: Seq<Option<Vec<u8>>>, sigs: Seq<[u8; 64]>) -> bool {
    &&& sigs.len() == entries.len()
    &&& forall|i: int|
        0 <= i < sigs.len() ==> (#[trigger] entries[i] matches Some(b) && sigs[i]@ == b@)
}

/// Reading a child does not alter it: a byte-array child is seen as its bytes,
/// unchanged, and any other child as no bytes.
pub proof fn lemma_entry_views_keep_bytes(entries: Seq<Option<Vec<u8>>>)
    ensures
        entry_views(entries).len() == entries.len(),
        forall|i: int|
            0 <= i < entries.len() ==> (#[trigger] entry_views(entries)[i]) == match entries[i] {
                Some(b) => Some(b@),
                None => None,
            },
{
}

/// The bytes of a signature are the signature itself, in the same order.
pub proof fn lemma_signature_bytes_are_signatures(sigs: Seq<[u8; 64]>)
    ensures
        signature_bytes(sigs).len() == sigs.len(),
        forall|i: int| 0 <= i < sigs.len() ==> #[trigger] signature_bytes(sigs)[i] == sigs[i]@,
{
}

/// A stored array determines its signatures: two lists that it both holds
/// are the same list.
pub proof fn lemma_stored_signatures_unique(
    entries: Seq<Option<Vec<u8>>>,
    first: Seq<[u8; 64]>,
    second: Seq<[u8; 64]>,
)
    requires
        stores_signatures(entries, first),
        stores_signatures(entries, second),
    ensures
        first == second,
{
    assert forall|i: int| 0 <= i < first.len() implies first[i] == second[i] by {
        assert(entries[i] matches Some(b) && first[i]@ == b@ && second[i]@ == b@);
        assert(first[i]@ =~= second[i]@);
    }
    assert(first =~= second);
}

/// Reads the stored signature array: every child must be a 64-byte byte array.
///
/// Returns the signatures in stored order, or the error of the first child that
/// is not one.
pub fn decode_signatures(entries: &Vec<Option<Vec<u8>>>) -> (res: Result<Vec<[u8; 64]>, MetadataError>)
    ensures
        res matches Ok(sigs) ==> stores_signatures(entries@, sigs@),
        (forall|i: int|
            0 <= i < entries@.len() ==> (#[trigger] entries@[i] matches Some(b) && b@.len()
                == 64)) ==> res is Ok,
        res matches Err(MetadataError::UnexpectedType { index }) ==> (index < entries@.len()
            && entries@[index as int] is None),
        res matches Err(MetadataError::WrongLength { index, len }) ==> (index < entries@.len()
            && (entries@[index as int] matches Some(b) && b@.len() == len && len != 64)),
        res is Ok <==> all_signature_entries(entry_views(entries@)),
        match res {
            Ok(sigs) => signature_bytes(sigs@) == entry_bytes(entry_views(entries@)),
            Err(err) => is_first_bad_entry(entry_views(entries@), err),
        },
{
    let ghost ev = entry_views(entries@);
    let n = entries.len();
    let mut sigs: Vec<[u8; 64]> = Vec::new();
    let mut i: usize = 0;
    while i < n
        invariant
            n == entries@.len(),
            ev == entry_views(entries@),
            ev.len() == n,
            i <= n,
            sigs@.len() == i,
            forall|j: int| 0 <= j < i ==> is_signature_entry(#[trigger] ev[j]),
            forall|j: int| 0 <= j < i ==> (#[trigger] sigs@[j])@ == ev[j].unwrap(),
            forall|j: int|
                0 <= j < i ==> (#[trigger] entries@[j] matches Some(b) && sigs@[j]@ == b@),
        decreases n - i,
    {
        assert(ev[i as int] == match entries@[i as int] {
            Some(b) => Some(b@),
            None => None::<Seq<u8>>,
        });
        match &entries[i] {
            None => {
                let err = MetadataError::UnexpectedType { index: i };
                assert(is_first_bad_entry(ev, err));
                return Err(err);
            },
            Some(bytes) => {
                if bytes.len() != ED25519_SIGNATURE_LEN {
                    let err = MetadataError::WrongLength { index: i, len: bytes.len() };
                    assert(is_first_bad_entry(ev, err));
                    return Err(err);
                }
                let mut sig = [0u8; 64];
                let mut k: usize = 0;
                while k < ED25519_SIGNATURE_LEN
                    invariant
                        bytes@.len() == 64,
                        k <= 64,
                        forall|t: int| 0 <= t < k ==> sig@[t] == bytes@[t],
                    decreases 64 - k,
                {
                    sig[k] = bytes[k];
                    k = k + 1;
                }
                assert(sig@ =~= bytes@);
                sigs.push(sig);
            },
        }
        i = i + 1;
    }
    assert(signature_bytes(sigs@) =~= entry_bytes(ev));
    Ok(sigs)
}

/// Reads the signature list of a commit. `stored` is the signature array
/// under [`SIGN_ED25519_KEY`], `None` where the commit has no detached
/// metadata or the metadata has no such key; then the list is empty.
pub fn signatures_from_metadata(stored: Option<&Vec<Option<Vec<u8>>>>) -> (res: Result<Vec<[u8; 64]>, MetadataError>)
    ensures
        match stored {
            None => res matches Ok(sigs) && sigs@.len() == 0,
            Some(entries) => {
                &&& res matches Ok(sigs) ==> stores_signatures(entries@, sigs@)
                &&& res is Ok <==> all_signature_entries(entry_views(entries@))
                &&& match res {
                    Ok(sigs) => signature_bytes(sigs@) == entry_bytes(entry_views(entries@)),
                    Err(err) => is_first_bad_entry(entry_views(entries@), err),
                }
            },
        },
{
    match stored {
        None => Ok(Vec::new()),
        Some(entries) => decode_signatures(entries),
    }
}

/// The signature array to store for `sigs`: one byte array per signature, in
/// the same order.
pub fn encode_signatures(sigs: &[[u8; 64]]) -> (res: Vec<Vec<u8>>)
    ensures
        res@.map_values(|v: Vec<u8>| v@) == signature_bytes(sigs@),
        res@.len() == sigs@.len(),
        forall|i: int| 0 <= i < sigs@.len() ==> (#[trigger] res@[i])@ == sigs@[i]@,
{
    let n = sigs.len();
    let mut res: Vec<Vec<u8>> = Vec::new();
    let mut i: usize = 0;
    while i < n
        invariant
            n == sigs@.len(),
            i <= n,
            res@.len() == i,
            forall|j: int| 0 <= j < i ==> (#[trigger] res@[j])@ == sigs@[j]@,
        decreases n - i,
    {
        let sig: &[u8; 64] = &sigs[i];
        res.push(vstd::slice::slice_to_vec(sig.as_slice()));
        i = i + 1;
    }
    assert(res@.map_values(|v: Vec<u8>| v@) =~= signature_bytes(sigs@));
    res
}

/// Reading back a stored list gives the signatures that were stored: when each
/// child holds the bytes of the corresponding signature, every child is a
/// 64-byte signature, and the only list whose bytes are those of the children
/// is the stored list itself.
pub proof fn lemma_read_back_written(sigs: Seq<[u8; 64]>, read: Seq<[u8; 64]>)
    ensures
        all_signature_entries(signature_bytes(sigs).map_values(|b: Seq<u8>| Some(b))),
        entry_bytes(signature_bytes(sigs).map_values(|b: Seq<u8>| Some(b))) == signature_bytes(
            sigs,
        ),
        signature_bytes(read) == entry_bytes(
            signature_bytes(sigs).map_values(|b: Seq<u8>| Some(b)),
        ) ==> read == sigs,
{
    let entries = signature_bytes(sigs).map_values(|b: Seq<u8>| Some(b));
    assert forall|i: int| 0 <= i < entries.len() implies is_signature_entry(
        #[trigger] entries[i],
    ) by {
        assert(sigs[i]@.len() == 64);
    }
    assert(entry_bytes(entries) =~= signature_bytes(sigs));
    if signature_bytes(read) == signature_bytes(sigs) {
        assert(read.len() == sigs.len());
        assert forall|i: int| 0 <= i < read.len() implies read[i] == sigs[i] by {
            assert(signature_bytes(read)[i] == signature_bytes(sigs)[i]);
            assert(read[i]@ =~= sigs[i]@);
        }
        assert(read =~= sigs);
    }
}

} // verus!
