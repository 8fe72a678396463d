//! Byte strings as the keyring holds them (`aws_smithy_types::Blob`), and the
//! conversions between them and plain byte vectors.
use crate::bridge::SymmetricSigningKey;
use aws_smithy_types::Blob;
use vstd::prelude::*;

verus! {

#[verifier::external_type_specification]
#[verifier::external_body]
pub struct ExBlob(aws_smithy_types::Blob);

/// The bytes that a blob holds.
pub uninterp spec fn blob_bytes(blob: Blob) -> Seq<u8>;

/// `Blob::new`: the blob holds exactly the bytes it was made from.
#[verifier::external_body]
pub(crate) fn blob_new(bytes: Vec<u8>) -> (blob: Blob)
    ensures
        blob_bytes(blob) == bytes@,
{
    Blob::new(bytes)
}

/// `<Blob as AsRef<[u8]>>::as_ref`, copied into a vector: the bytes the blob
/// holds.
#[verifier::external_body]
pub(crate) fn blob_to_vec(blob: &Blob) -> (bytes: Vec<u8>)
    ensures
        bytes@ == blob_bytes(*blob),
{
    blob.as_ref().to_vec()
}

/// The bytes of an optional blob; a missing blob reads as no bytes.
pub open spec fn optional_bytes(blob: Option<Blob>) -> Seq<u8> {
    match blob {
        Some(b) => blob_bytes(b),
        None => Seq::empty(),
    }
}

/// `blob` is what an optional field of the keyring carries for `bytes`:
/// nothing for no bytes, else a blob that holds them.
pub open spec fn blob_option_of(bytes: Seq<u8>, blob: Option<Blob>) -> bool {
    if bytes.len() == 0 {
        blob is None
    } else {
        blob matches Some(b) && blob_bytes(b) == bytes
    }
}

/// Copies the bytes of an optional blob; a missing blob gives no bytes.
pub fn vec_from_blob(x: &Option<Blob>) -> (bytes: Vec<u8>)
    ensures
        bytes@ == optional_bytes(*x),
{
    match x {
        Some(b) => blob_to_vec(b),
        None => Vec::new(),
    }
}

/// Copies bytes into a new vector.
pub(crate) fn copy_bytes(bytes: &Vec<u8>) -> (copy: Vec<u8>)
    ensures
        copy@ == bytes@,
{
    let mut copy: Vec<u8> = Vec::new();
    let mut i: usize = 0;
    while i < bytes.len()
        invariant
            i <= bytes.len(),
            copy@ == bytes@.take(i as int),
        decreases bytes.len() - i,
    {
        copy.push(bytes[i]);
        i = i + 1;
        assert(copy@ =~= bytes@.take(i as int));
    }
    assert(bytes@.take(bytes.len() as int) =~= bytes@);
    copy
}

/// The optional blob for a field that is set only when it has bytes.
pub fn blob_if_not_empty(bytes: &Vec<u8>) -> (blob: Option<Blob>)
    ensures
        blob_option_of(bytes@, blob),
{
    if bytes.is_empty() {
        None
    } else {
        Some(blob_new(copy_bytes(bytes)))
    }
}

/// Setting an optional field from bytes and reading it back gives the same
/// bytes, empty or not.
pub proof fn lemma_blob_option_round_trip(bytes: Seq<u8>, blob: Option<Blob>)
    requires
        blob_option_of(bytes, blob),
    ensures
        optional_bytes(blob) == bytes,
{
}

/// Each key holds the bytes of the blob at the same place.
pub open spec fn signing_keys_of(blobs: Seq<Blob>, keys: Seq<SymmetricSigningKey>) -> bool {
    &&& keys.len() == blobs.len()
    &&& forall|i: int| 0 <= i < blobs.len() ==> #[trigger] keys[i].key@ == blob_bytes(blobs[i])
}

/// Turns blobs into symmetric signing keys, in order.
pub fn vec_from_ssk(x: &[Blob]) -> (keys: Vec<SymmetricSigningKey>)
    ensures
        signing_keys_of(x@, keys@),
{
    let mut keys: Vec<SymmetricSigningKey> = Vec::new();
    let mut i: usize = 0;
    while i < x.len()
        invariant
            i <= x.len(),
            signing_keys_of(x@.take(i as int), keys@),
        decreases x.len() - i,
    {
        keys.push(SymmetricSigningKey { key: blob_to_vec(&x[i]) });
        i = i + 1;
    }
    assert(x@.take(x.len() as int) =~= x@);
    keys
}

/// Turns an optional list of blobs into symmetric signing keys; a missing
/// list gives none.
pub fn vec_from_ossk(x: &Option<Vec<Blob>>) -> (keys: Vec<SymmetricSigningKey>)
    ensures
        match *x {
            Some(blobs) => signing_keys_of(blobs@, keys@),
            None => keys@.len() == 0,
        },
{
    match x {
        Some(blobs) => vec_from_ssk(blobs.as_slice()),
        None => Vec::new(),
    }
}

} // verus!
