//! Encryption and decryption materials: what is handed to a keyring for the
//! C++ side's materials, and what is handed back to the C++ side for the
//! keyring's.
use crate::blob::{
    blob_bytes, blob_if_not_empty, blob_new, blob_option_of, blob_to_vec, copy_bytes,
    lemma_blob_option_round_trip, optional_bytes, signing_keys_of, vec_from_blob, vec_from_ossk,
};
use crate::bridge::{copy_strings, DecryptionMaterials, EncryptedDataKey, EncryptionMaterials, EsdkAlgorithmSuiteId};
use crate::context::{context_of, lemma_list_then_map_round_trip, list_from_map, lists_context, map_from_list};
use crate::suite::{id_from_suite, is_esdk_suite, names_esdk_suite, AlgorithmSuiteIdentifier, AlgorithmSuiteInfo};
use std::collections::HashMap;
use aws_smithy_types::Blob;
use vstd::prelude::*;

verus! {

/// An encrypted data key as a keyring holds it: every field is optional.
#[derive(Debug)]
pub struct KeyringEncryptedDataKey {
    pub ciphertext: Option<Blob>,
    pub key_provider_id: Option<String>,
    pub key_provider_info: Option<Blob>,
}

/// Every field of the key is present.
pub open spec fn edk_complete(key: KeyringEncryptedDataKey) -> bool {
    &&& key.ciphertext is Some
    &&& key.key_provider_id is Some
    &&& key.key_provider_info is Some
}

/// The keyring's key carries exactly the fields of the C++ side's key.
pub open spec fn edk_carries(edk: EncryptedDataKey, key: KeyringEncryptedDataKey) -> bool {
    &&& key.key_provider_id matches Some(id) && id@ == edk.key_provider_id@
    &&& key.key_provider_info matches Some(info) && blob_bytes(info) == edk.key_provider_info@
    &&& key.ciphertext matches Some(c) && blob_bytes(c) == edk.ciphertext@
}

/// The two lists have the same length and each keyring key carries the C++
/// side's key at the same place.
pub open spec fn edks_carry(edks: Seq<EncryptedDataKey>, keys: Seq<KeyringEncryptedDataKey>) -> bool {
    &&& edks.len() == keys.len()
    &&& forall|i: int| 0 <= i < edks.len() ==> #[trigger] edk_carries(edks[i], keys[i])
}

/// Every key of the list is complete.
pub open spec fn edks_complete(keys: Seq<KeyringEncryptedDataKey>) -> bool {
    forall|i: int| 0 <= i < keys.len() ==> #[trigger] edk_complete(keys[i])
}

/// Two keys of the C++ side hold the same provider id, provider info and
/// ciphertext.
pub open spec fn edk_same(a: EncryptedDataKey, b: EncryptedDataKey) -> bool {
    &&& a.key_provider_id@ == b.key_provider_id@
    &&& a.key_provider_info@ == b.key_provider_info@
    &&& a.ciphertext@ == b.ciphertext@
}

/// Turns the keyring's encrypted data keys into the C++ side's, in order.
pub fn vec_from_edk(x: &[KeyringEncryptedDataKey]) -> (edks: Vec<EncryptedDataKey>)
    requires
        edks_complete(x@),
    ensures
        edks_carry(edks@, x@),
{
    let mut edks: Vec<EncryptedDataKey> = Vec::new();
    let mut i: usize = 0;
    while i < x.len()
        invariant
            i <= x.len(),
            edks_complete(x@),
            edks_carry(edks@, x@.take(i as int)),
        decreases x.len() - i,
    {
        let key = &x[i];
        assert(edk_complete(x@[i as int]));
        let key_provider_id = match &key.key_provider_id {
            Some(id) => id.clone(),
            None => unreached(),
        };
        let key_provider_info = match &key.key_provider_info {
            Some(info) => blob_to_vec(info),
            None => unreached(),
        };
        let ciphertext = match &key.ciphertext {
            Some(c) => blob_to_vec(c),
            None => unreached(),
        };
        edks.push(EncryptedDataKey { key_provider_id, key_provider_info, ciphertext });
        i = i + 1;
        assert(edk_carries(edks@[i - 1], x@.take(i as int)[i - 1]));
    }
    assert(x@.take(x.len() as int) =~= x@);
    edks
}

/// Turns the C++ side's encrypted data keys into the keyring's, in order,
/// with every field present.
pub fn edk_from_vec(x: &[EncryptedDataKey]) -> (keys: Vec<KeyringEncryptedDataKey>)
    ensures
        edks_carry(x@, keys@),
        edks_complete(keys@),
{
    let mut keys: Vec<KeyringEncryptedDataKey> = Vec::new();
    let mut i: usize = 0;
    while i < x.len()
        invariant
            i <= x.len(),
            edks_carry(x@.take(i as int), keys@),
            edks_complete(keys@),
        decreases x.len() - i,
    {
        let edk = &x[i];
        let key = KeyringEncryptedDataKey {
            key_provider_id: Some(edk.key_provider_id.clone()),
            key_provider_info: Some(blob_new(copy_bytes(&edk.key_provider_info))),
            ciphertext: Some(blob_new(copy_bytes(&edk.ciphertext))),
        };
        keys.push(key);
        i = i + 1;
        assert(edk_carries(x@.take(i as int)[i - 1], keys@[i - 1]));
    }
    assert(x@.take(x.len() as int) =~= x@);
    keys
}

/// Handing keys to a keyring and taking them back unchanged gives the same
/// keys.
pub proof fn lemma_edk_round_trip(
    sent: Seq<EncryptedDataKey>,
    keys: Seq<KeyringEncryptedDataKey>,
    received: Seq<EncryptedDataKey>,
)
    requires
        edks_carry(sent, keys),
        edks_carry(received, keys),
    ensures
        sent.len() == received.len(),
        forall|i: int| 0 <= i < sent.len() ==> #[trigger] edk_same(sent[i], received[i]),
{
    assert forall|i: int| 0 <= i < sent.len() implies #[trigger] edk_same(sent[i], received[i]) by {
        assert(edk_carries(sent[i], keys[i]));
        assert(edk_carries(received[i], keys[i]));
    }
}

/// What a keyring is handed to complete encryption materials: the suite to
/// look up, and every field of the C++ side's materials in the keyring's form,
/// the optional keys only when they hold bytes.
#[derive(Debug)]
pub struct EncryptionMaterialsRequest {
    pub algorithm_suite_id: EsdkAlgorithmSuiteId,
    pub encryption_context: HashMap<String, String>,
    pub encrypted_data_keys: Vec<KeyringEncryptedDataKey>,
    pub required_encryption_context_keys: Vec<String>,
    pub signing_key: Option<Blob>,
    pub plaintext_data_key: Option<Blob>,
}

/// What a keyring is handed to complete decryption materials.
#[derive(Debug)]
pub struct DecryptionMaterialsRequest {
    pub algorithm_suite_id: EsdkAlgorithmSuiteId,
    pub encryption_context: HashMap<String, String>,
    pub required_encryption_context_keys: Vec<String>,
    pub plaintext_data_key: Option<Blob>,
    pub verification_key: Option<Blob>,
    pub symmetric_signing_key: Option<Blob>,
}

/// The request carries the C++ side's encryption materials.
pub open spec fn encryption_request_of(input: EncryptionMaterials, request: EncryptionMaterialsRequest) -> bool {
    &&& request.algorithm_suite_id == input.algorithm_suite_id
    &&& request.encryption_context.deep_view() == context_of(input.encryption_context@)
    &&& edks_carry(input.encrypted_data_keys@, request.encrypted_data_keys@)
    &&& request.required_encryption_context_keys@ == input.required_encryption_context_keys@
    &&& blob_option_of(input.signing_key@, request.signing_key)
    &&& blob_option_of(input.plaintext_data_key@, request.plaintext_data_key)
}

/// The request carries the C++ side's decryption materials.
pub open spec fn decryption_request_of(input: DecryptionMaterials, request: DecryptionMaterialsRequest) -> bool {
    &&& request.algorithm_suite_id == input.algorithm_suite_id
    &&& request.encryption_context.deep_view() == context_of(input.encryption_context@)
    &&& request.required_encryption_context_keys@ == input.required_encryption_context_keys@
    &&& blob_option_of(input.plaintext_data_key@, request.plaintext_data_key)
    &&& blob_option_of(input.verification_key@, request.verification_key)
    &&& blob_option_of(input.symmetric_signing_key@, request.symmetric_signing_key)
}

/// Puts the C++ side's encryption materials into the form a keyring takes;
/// the signing key and the plaintext data key are set only when they hold
/// bytes.
pub fn encryption_materials_request(input: &EncryptionMaterials) -> (request: EncryptionMaterialsRequest)
    ensures
        encryption_request_of(*input, request),
{
    EncryptionMaterialsRequest {
        algorithm_suite_id: input.algorithm_suite_id,
        encryption_context: map_from_list(input.encryption_context.as_slice()),
        encrypted_data_keys: edk_from_vec(input.encrypted_data_keys.as_slice()),
        required_encryption_context_keys: copy_strings(&input.required_encryption_context_keys),
        signing_key: blob_if_not_empty(&input.signing_key),
        plaintext_data_key: blob_if_not_empty(&input.plaintext_data_key),
    }
}

/// Puts the C++ side's decryption materials into the form a keyring takes;
/// each key is set only when it holds bytes.
pub fn decryption_materials_request(input: &DecryptionMaterials) -> (request: DecryptionMaterialsRequest)
    ensures
        decryption_request_of(*input, request),
{
    DecryptionMaterialsRequest {
        algorithm_suite_id: input.algorithm_suite_id,
        encryption_context: map_from_list(input.encryption_context.as_slice()),
        required_encryption_context_keys: copy_strings(&input.required_encryption_context_keys),
        plaintext_data_key: blob_if_not_empty(&input.plaintext_data_key),
        verification_key: blob_if_not_empty(&input.verification_key),
        symmetric_signing_key: blob_if_not_empty(&input.symmetric_signing_key),
    }
}

/// Encryption materials as a keyring gives them back: every field optional.
#[derive(Debug)]
pub struct KeyringEncryptionMaterials {
    pub algorithm_suite: Option<AlgorithmSuiteInfo>,
    pub encryption_context: Option<HashMap<String, String>>,
    pub encrypted_data_keys: Option<Vec<KeyringEncryptedDataKey>>,
    pub required_encryption_context_keys: Option<Vec<String>>,
    pub plaintext_data_key: Option<Blob>,
    pub signing_key: Option<Blob>,
    pub symmetric_signing_keys: Option<Vec<Blob>>,
}

/// Decryption materials as a keyring gives them back: every field optional.
#[derive(Debug)]
pub struct KeyringDecryptionMaterials {
    pub algorithm_suite: Option<AlgorithmSuiteInfo>,
    pub encryption_context: Option<HashMap<String, String>>,
    pub required_encryption_context_keys: Option<Vec<String>>,
    pub plaintext_data_key: Option<Blob>,
    pub verification_key: Option<Blob>,
    pub symmetric_signing_key: Option<Blob>,
}

/// The keyring's encryption materials hold what the C++ side cannot do
/// without: a suite of the AWS Encryption SDK, an encryption context, complete
/// encrypted data keys and the required context keys.
pub open spec fn encryption_materials_usable(m: KeyringEncryptionMaterials) -> bool {
    &&& m.algorithm_suite matches Some(suite) && names_esdk_suite(suite)
    &&& m.encryption_context is Some
    &&& m.encrypted_data_keys matches Some(keys) && edks_complete(keys@)
    &&& m.required_encryption_context_keys is Some
}

/// The keyring's decryption materials hold a suite of the AWS Encryption SDK,
/// an encryption context and the required context keys.
pub open spec fn decryption_materials_usable(m: KeyringDecryptionMaterials) -> bool {
    &&& m.algorithm_suite matches Some(suite) && names_esdk_suite(suite)
    &&& m.encryption_context is Some
    &&& m.required_encryption_context_keys is Some
}

/// The C++ side's encryption materials carry the keyring's.
pub open spec fn encryption_materials_of(m: KeyringEncryptionMaterials, out: EncryptionMaterials) -> bool {
    &&& m.algorithm_suite->0.id == Some(AlgorithmSuiteIdentifier::Esdk(out.algorithm_suite_id))
    &&& lists_context(out.encryption_context@, m.encryption_context->0.deep_view())
    &&& edks_carry(out.encrypted_data_keys@, m.encrypted_data_keys->0@)
    &&& out.required_encryption_context_keys@ == m.required_encryption_context_keys->0@
    &&& out.plaintext_data_key@ == optional_bytes(m.plaintext_data_key)
    &&& out.signing_key@ == optional_bytes(m.signing_key)
    &&& match m.symmetric_signing_keys {
        Some(blobs) => signing_keys_of(blobs@, out.symmetric_signing_keys@),
        None => out.symmetric_signing_keys@.len() == 0,
    }
}

/// The C++ side's decryption materials carry the keyring's.
pub open spec fn decryption_materials_of(m: KeyringDecryptionMaterials, out: DecryptionMaterials) -> bool {
    &&& m.algorithm_suite->0.id == Some(AlgorithmSuiteIdentifier::Esdk(out.algorithm_suite_id))
    &&& lists_context(out.encryption_context@, m.encryption_context->0.deep_view())
    &&& out.required_encryption_context_keys@ == m.required_encryption_context_keys->0@
    &&& out.plaintext_data_key@ == optional_bytes(m.plaintext_data_key)
    &&& out.verification_key@ == optional_bytes(m.verification_key)
    &&& out.symmetric_signing_key@ == optional_bytes(m.symmetric_signing_key)
}

/// Keyring encryption materials that name an AWS Encryption SDK suite and
/// carry an encryption context, complete encrypted data keys and the required
/// context keys are accepted; any other are refused.
pub proof fn lemma_encryption_materials_usable_exactly(m: KeyringEncryptionMaterials)
    ensures
        encryption_materials_usable(m) <==> {
            &&& m.algorithm_suite is Some
            &&& (m.algorithm_suite->0.id matches Some(AlgorithmSuiteIdentifier::Esdk(_)))
            &&& m.encryption_context is Some
            &&& m.encrypted_data_keys is Some
            &&& forall|i: int|
                0 <= i < m.encrypted_data_keys->0@.len() ==> {
                    &&& (#[trigger] m.encrypted_data_keys->0@[i]).ciphertext is Some
                    &&& m.encrypted_data_keys->0@[i].key_provider_id is Some
                    &&& m.encrypted_data_keys->0@[i].key_provider_info is Some
                }
            &&& m.required_encryption_context_keys is Some
        },
{
    if m.encrypted_data_keys is Some {
        let keys = m.encrypted_data_keys->0;
        assert(edks_complete(keys@) <==> forall|i: int|
            0 <= i < keys@.len() ==> {
                &&& (#[trigger] keys@[i]).ciphertext is Some
                &&& keys@[i].key_provider_id is Some
                &&& keys@[i].key_provider_info is Some
            }) by {
            if edks_complete(keys@) {
                assert forall|i: int| 0 <= i < keys@.len() implies {
                    &&& (#[trigger] keys@[i]).ciphertext is Some
                    &&& keys@[i].key_provider_id is Some
                    &&& keys@[i].key_provider_info is Some
                } by {
                    assert(edk_complete(keys@[i]));
                }
            }
        }
    }
}

/// Whether keyring encryption materials are accepted does not depend on the
/// plaintext data key, the signing key or the symmetric signing keys they
/// hold.
pub proof fn lemma_encryption_usability_ignores_keys(a: KeyringEncryptionMaterials, b: KeyringEncryptionMaterials)
    requires
        a.algorithm_suite == b.algorithm_suite,
        a.encryption_context == b.encryption_context,
        a.encrypted_data_keys == b.encrypted_data_keys,
        a.required_encryption_context_keys == b.required_encryption_context_keys,
    ensures
        encryption_materials_usable(a) == encryption_materials_usable(b),
{
}

/// Keyring decryption materials that name an AWS Encryption SDK suite and
/// carry an encryption context and the required context keys are accepted;
/// any other are refused.
pub proof fn lemma_decryption_materials_usable_exactly(m: KeyringDecryptionMaterials)
    ensures
        decryption_materials_usable(m) <==> {
            &&& m.algorithm_suite is Some
            &&& (m.algorithm_suite->0.id matches Some(AlgorithmSuiteIdentifier::Esdk(_)))
            &&& m.encryption_context is Some
            &&& m.required_encryption_context_keys is Some
        },
{
}

/// Whether keyring decryption materials are accepted does not depend on the
/// plaintext data key, the verification key or the symmetric signing key
/// they hold.
pub proof fn lemma_decryption_usability_ignores_keys(a: KeyringDecryptionMaterials, b: KeyringDecryptionMaterials)
    requires
        a.algorithm_suite == b.algorithm_suite,
        a.encryption_context == b.encryption_context,
        a.required_encryption_context_keys == b.required_encryption_context_keys,
    ensures
        decryption_materials_usable(a) == decryption_materials_usable(b),
{
}

/// Tells whether every encrypted data key of the list is complete.
fn all_edks_complete(keys: &Vec<KeyringEncryptedDataKey>) -> (b: bool)
    ensures
        b == edks_complete(keys@),
{
    let mut i: usize = 0;
    while i < keys.len()
        invariant
            i <= keys.len(),
            forall|j: int| 0 <= j < i ==> #[trigger] edk_complete(keys@[j]),
        decreases keys.len() - i,
    {
        let key = &keys[i];
        if key.ciphertext.is_none() || key.key_provider_id.is_none() || key.key_provider_info.is_none() {
            assert(!edk_complete(keys@[i as int]));
            return false;
        }
        i = i + 1;
    }
    true
}

/// Tells whether the keyring's encryption materials can be handed back.
pub fn encryption_materials_are_usable(m: &KeyringEncryptionMaterials) -> (b: bool)
    ensures
        b == encryption_materials_usable(*m),
{
    let suite_ok = match &m.algorithm_suite {
        Some(suite) => is_esdk_suite(suite),
        None => false,
    };
    let keys_ok = match &m.encrypted_data_keys {
        Some(keys) => all_edks_complete(keys),
        None => false,
    };
    suite_ok && m.encryption_context.is_some() && keys_ok && m.required_encryption_context_keys.is_some()
}

/// Tells whether the keyring's decryption materials can be handed back.
pub fn decryption_materials_are_usable(m: &KeyringDecryptionMaterials) -> (b: bool)
    ensures
        b == decryption_materials_usable(*m),
{
    let suite_ok = match &m.algorithm_suite {
        Some(suite) => is_esdk_suite(suite),
        None => false,
    };
    suite_ok && m.encryption_context.is_some() && m.required_encryption_context_keys.is_some()
}

/// Puts a keyring's encryption materials into the C++ side's form; missing
/// keys read as empty.
pub fn encryption_materials_from_keyring(m: &KeyringEncryptionMaterials) -> (out: EncryptionMaterials)
    requires
        encryption_materials_usable(*m),
    ensures
        encryption_materials_of(*m, out),
{
    let algorithm_suite_id = match &m.algorithm_suite {
        Some(suite) => id_from_suite(suite),
        None => unreached(),
    };
    let encryption_context = match &m.encryption_context {
        Some(context) => list_from_map(context),
        None => unreached(),
    };
    let encrypted_data_keys = match &m.encrypted_data_keys {
        Some(keys) => vec_from_edk(keys.as_slice()),
        None => unreached(),
    };
    let required_encryption_context_keys = match &m.required_encryption_context_keys {
        Some(keys) => copy_strings(keys),
        None => unreached(),
    };
    EncryptionMaterials {
        algorithm_suite_id,
        encryption_context,
        encrypted_data_keys,
        required_encryption_context_keys,
        plaintext_data_key: vec_from_blob(&m.plaintext_data_key),
        signing_key: vec_from_blob(&m.signing_key),
        symmetric_signing_keys: vec_from_ossk(&m.symmetric_signing_keys),
    }
}

/// Puts a keyring's decryption materials into the C++ side's form; missing
/// keys read as empty.
pub fn decryption_materials_from_keyring(m: &KeyringDecryptionMaterials) -> (out: DecryptionMaterials)
    requires
        decryption_materials_usable(*m),
    ensures
        decryption_materials_of(*m, out),
{
    let algorithm_suite_id = match &m.algorithm_suite {
        Some(suite) => id_from_suite(suite),
        None => unreached(),
    };
    let encryption_context = match &m.encryption_context {
        Some(context) => list_from_map(context),
        None => unreached(),
    };
    let required_encryption_context_keys = match &m.required_encryption_context_keys {
        Some(keys) => copy_strings(keys),
        None => unreached(),
    };
    DecryptionMaterials {
        algorithm_suite_id,
        encryption_context,
        required_encryption_context_keys,
        plaintext_data_key: vec_from_blob(&m.plaintext_data_key),
        verification_key: vec_from_blob(&m.verification_key),
        symmetric_signing_key: vec_from_blob(&m.symmetric_signing_key),
    }
}

/// The keyring hands back, for encryption, exactly what it was handed and
/// no symmetric signing keys.
pub open spec fn keyring_returns_encryption_request(
    request: EncryptionMaterialsRequest,
    m: KeyringEncryptionMaterials,
) -> bool {
    &&& m.algorithm_suite matches Some(suite) && suite.id == Some(
        AlgorithmSuiteIdentifier::Esdk(request.algorithm_suite_id),
    )
    &&& m.encryption_context matches Some(c) && c.deep_view() == request.encryption_context.deep_view()
    &&& m.encrypted_data_keys matches Some(keys) && keys@ == request.encrypted_data_keys@
    &&& m.required_encryption_context_keys matches Some(keys) && keys@
        == request.required_encryption_context_keys@
    &&& m.plaintext_data_key == request.plaintext_data_key
    &&& m.signing_key == request.signing_key
    &&& m.symmetric_signing_keys is None
}

/// The keyring hands back, for decryption, exactly what it was handed.
pub open spec fn keyring_returns_decryption_request(
    request: DecryptionMaterialsRequest,
    m: KeyringDecryptionMaterials,
) -> bool {
    &&& m.algorithm_suite matches Some(suite) && suite.id == Some(
        AlgorithmSuiteIdentifier::Esdk(request.algorithm_suite_id),
    )
    &&& m.encryption_context matches Some(c) && c.deep_view() == request.encryption_context.deep_view()
    &&& m.required_encryption_context_keys matches Some(keys) && keys@
        == request.required_encryption_context_keys@
    &&& m.plaintext_data_key == request.plaintext_data_key
    &&& m.verification_key == request.verification_key
    &&& m.symmetric_signing_key == request.symmetric_signing_key
}

/// Encryption materials that go to a keyring and come back unchanged reach
/// the C++ side as they left it: the same suite, the same encryption context
/// (as a map: a repeated key keeps its last value), the same encrypted data
/// keys, required keys, plaintext data key and signing key, and no symmetric
/// signing keys.
pub proof fn lemma_encryption_materials_round_trip(
    input: EncryptionMaterials,
    request: EncryptionMaterialsRequest,
    m: KeyringEncryptionMaterials,
    out: EncryptionMaterials,
)
    requires
        encryption_request_of(input, request),
        keyring_returns_encryption_request(request, m),
        encryption_materials_of(m, out),
    ensures
        out.algorithm_suite_id == input.algorithm_suite_id,
        context_of(out.encryption_context@) == context_of(input.encryption_context@),
        out.encrypted_data_keys@.len() == input.encrypted_data_keys@.len(),
        forall|i: int|
            0 <= i < input.encrypted_data_keys@.len() ==> #[trigger] edk_same(
                input.encrypted_data_keys@[i],
                out.encrypted_data_keys@[i],
            ),
        out.required_encryption_context_keys@ == input.required_encryption_context_keys@,
        out.plaintext_data_key@ == input.plaintext_data_key@,
        out.signing_key@ == input.signing_key@,
        out.symmetric_signing_keys@.len() == 0,
{
    lemma_list_then_map_round_trip(m.encryption_context->0.deep_view(), out.encryption_context@);
    lemma_edk_round_trip(input.encrypted_data_keys@, request.encrypted_data_keys@, out.encrypted_data_keys@);
    lemma_blob_option_round_trip(input.plaintext_data_key@, request.plaintext_data_key);
    lemma_blob_option_round_trip(input.signing_key@, request.signing_key);
}

/// Decryption materials that go to a keyring and come back unchanged reach
/// the C++ side as they left it (the encryption context as a map).
pub proof fn lemma_decryption_materials_round_trip(
    input: DecryptionMaterials,
    request: DecryptionMaterialsRequest,
    m: KeyringDecryptionMaterials,
    out: DecryptionMaterials,
)
    requires
        decryption_request_of(input, request),
        keyring_returns_decryption_request(request, m),
        decryption_materials_of(m, out),
    ensures
        out.algorithm_suite_id == input.algorithm_suite_id,
        context_of(out.encryption_context@) == context_of(input.encryption_context@),
        out.required_encryption_context_keys@ == input.required_encryption_context_keys@,
        out.plaintext_data_key@ == input.plaintext_data_key@,
        out.verification_key@ == input.verification_key@,
        out.symmetric_signing_key@ == input.symmetric_signing_key@,
{
    lemma_list_then_map_round_trip(m.encryption_context->0.deep_view(), out.encryption_context@);
    lemma_blob_option_round_trip(input.plaintext_data_key@, request.plaintext_data_key);
    lemma_blob_option_round_trip(input.verification_key@, request.verification_key);
    lemma_blob_option_round_trip(input.symmetric_signing_key@, request.symmetric_signing_key);
}

} // verus!


