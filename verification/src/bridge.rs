//! The records exchanged with the C++ side, and their default values.
use vstd::prelude::*;

verus! {

/// One key/value pair of an encryption context.
#[derive(Debug)]
pub struct EncryptionContextItem {
    pub key: String,
    pub value: String,
}

/// An encrypted data key as the C++ side holds it.
#[derive(Debug)]
pub struct EncryptedDataKey {
    pub key_provider_id: String,
    pub key_provider_info: Vec<u8>,
    pub ciphertext: Vec<u8>,
}

/// A symmetric signing key.
#[derive(Debug)]
pub struct SymmetricSigningKey {
    pub key: Vec<u8>,
}

/// The algorithm suites of the AWS Encryption SDK message format.
#[derive(Clone, Copy, Debug, PartialEq, Eq, Structural)]
pub enum EsdkAlgorithmSuiteId {
    AlgAes128GcmIv12Tag16NoKdf,
    AlgAes192GcmIv12Tag16NoKdf,
    AlgAes256GcmIv12Tag16NoKdf,
    AlgAes128GcmIv12Tag16HkdfSha256,
    AlgAes192GcmIv12Tag16HkdfSha256,
    AlgAes256GcmIv12Tag16HkdfSha256,
    AlgAes128GcmIv12Tag16HkdfSha256EcdsaP256,
    AlgAes192GcmIv12Tag16HkdfSha384EcdsaP384,
    AlgAes256GcmIv12Tag16HkdfSha384EcdsaP384,
    AlgAes256GcmHkdfSha512CommitKey,
    AlgAes256GcmHkdfSha512CommitKeyEcdsaP384,
}

/// Materials for encrypting a message.
#[derive(Debug)]
pub struct EncryptionMaterials {
    pub algorithm_suite_id: EsdkAlgorithmSuiteId,
    pub encryption_context: Vec<EncryptionContextItem>,
    pub encrypted_data_keys: Vec<EncryptedDataKey>,
    pub required_encryption_context_keys: Vec<String>,
    pub plaintext_data_key: Vec<u8>,
    pub signing_key: Vec<u8>,
    pub symmetric_signing_keys: Vec<SymmetricSigningKey>,
}

/// Materials for decrypting a message.
#[derive(Debug)]
pub struct DecryptionMaterials {
    pub algorithm_suite_id: EsdkAlgorithmSuiteId,
    pub encryption_context: Vec<EncryptionContextItem>,
    pub required_encryption_context_keys: Vec<String>,
    pub plaintext_data_key: Vec<u8>,
    pub verification_key: Vec<u8>,
    pub symmetric_signing_key: Vec<u8>,
}

/// Commitment policies of the AWS Encryption SDK.
#[derive(Clone, Copy, Debug, PartialEq, Eq, Structural)]
pub enum EsdkCommitmentPolicy {
    ForbidEncryptAllowDecrypt,
    RequireEncryptAllowDecrypt,
    RequireEncryptRequireDecrypt,
}

/// How the AWS clients retry failed requests. Zero means "keep the SDK's value".
#[derive(Clone, Copy, Debug, PartialEq, Eq, Structural)]
pub struct RetryConfig {
    pub mode_adaptive: bool,
    pub max_attempts: u32,
    pub initial_backoff_milli: u64,
    pub max_backoff_milli: u64,
    pub reconnect_all: bool,
    pub use_static_exponential_base: bool,
}

/// How a key store reaches AWS KMS. `Unrecognized` stands for a value that the
/// C++ side sent outside the named ones.
#[derive(Clone, Copy, Debug, PartialEq, Eq, Structural)]
pub enum KmsConfigurationType {
    KmsKeyArn,
    KmsMrKeyArn,
    Discovery,
    MrDiscovery,
    Unrecognized,
}

/// The cache of a hierarchical keyring. `Unrecognized` stands for a value
/// that the C++ side sent outside the named ones.
#[derive(Clone, Copy, Debug, PartialEq, Eq, Structural)]
pub enum CacheType {
    NoCache,
    MultiThreadedCache,
    Unrecognized,
}

/// Configuration of an AWS client (KMS or DynamoDB).
#[derive(Debug)]
pub struct MplAwsClientConfig {
    pub env: bool,
    pub region: String,
    pub retry: RetryConfig,
}

/// Sizes of a multi-threaded cache.
#[allow(non_snake_case)]
#[derive(Clone, Copy, Debug, PartialEq, Eq, Structural)]
pub struct MultiThreadedCacheConfig {
    pub entryCapacity: u32,
    pub entryPruningTailSize: u32,
}

/// Configuration of a branch-key store. The clients are handles owned by the
/// caller; `None` stands for a missing (null) handle.
#[derive(Debug)]
pub struct KeyStoreConfig<D, K> {
    pub ddb_table_name: String,
    pub kms_configuration_type: KmsConfigurationType,
    pub kms_configuration_value: String,
    pub logical_key_store_name: String,
    pub id: String,
    pub grant_tokens: Vec<String>,
    pub ddb_client: Option<D>,
    pub kms_client: Option<K>,
}

/// Input of a hierarchical keyring. The key store is a handle owned by the
/// caller; `None` stands for a missing (null) handle.
#[derive(Debug)]
pub struct HierarchicalKeyringInput<S> {
    pub branch_key_id: String,
    pub key_store: Option<S>,
    pub ttl: u32,
    pub cache: CacheType,
    pub multi_threaded_cache: MultiThreadedCacheConfig,
    pub partition_id: String,
}

/// Decryption materials with the committing ECDSA P-384 suite and nothing else.
pub fn default_decryption_materials() -> (m: DecryptionMaterials)
    ensures
        m.algorithm_suite_id == EsdkAlgorithmSuiteId::AlgAes256GcmHkdfSha512CommitKeyEcdsaP384,
        m.encryption_context@.len() == 0,
        m.required_encryption_context_keys@.len() == 0,
        m.plaintext_data_key@.len() == 0,
        m.verification_key@.len() == 0,
        m.symmetric_signing_key@.len() == 0,
{
    DecryptionMaterials {
        algorithm_suite_id: EsdkAlgorithmSuiteId::AlgAes256GcmHkdfSha512CommitKeyEcdsaP384,
        encryption_context: Vec::new(),
        required_encryption_context_keys: Vec::new(),
        plaintext_data_key: Vec::new(),
        verification_key: Vec::new(),
        symmetric_signing_key: Vec::new(),
    }
}

/// Encryption materials with the committing ECDSA P-384 suite and nothing else.
pub fn default_encryption_materials() -> (m: EncryptionMaterials)
    ensures
        m.algorithm_suite_id == EsdkAlgorithmSuiteId::AlgAes256GcmHkdfSha512CommitKeyEcdsaP384,
        m.encryption_context@.len() == 0,
        m.encrypted_data_keys@.len() == 0,
        m.required_encryption_context_keys@.len() == 0,
        m.plaintext_data_key@.len() == 0,
        m.signing_key@.len() == 0,
        m.symmetric_signing_keys@.len() == 0,
{
    EncryptionMaterials {
        algorithm_suite_id: EsdkAlgorithmSuiteId::AlgAes256GcmHkdfSha512CommitKeyEcdsaP384,
        encryption_context: Vec::new(),
        encrypted_data_keys: Vec::new(),
        required_encryption_context_keys: Vec::new(),
        plaintext_data_key: Vec::new(),
        signing_key: Vec::new(),
        symmetric_signing_keys: Vec::new(),
    }
}

/// Keyring input with no key store, a five-minute TTL and a multi-threaded
/// cache of 1000 entries that prunes one entry at a time.
pub fn default_hierarchical_keyring_input<S>() -> (input: HierarchicalKeyringInput<S>)
    ensures
        input.branch_key_id@.len() == 0,
        input.key_store is None,
        input.ttl == 300,
        input.cache == CacheType::MultiThreadedCache,
        input.multi_threaded_cache.entryCapacity == 1000,
        input.multi_threaded_cache.entryPruningTailSize == 1,
        input.partition_id@.len() == 0,
{
    HierarchicalKeyringInput {
        branch_key_id: String::new(),
        key_store: None,
        ttl: 300,
        cache: CacheType::MultiThreadedCache,
        multi_threaded_cache: MultiThreadedCacheConfig { entryCapacity: 1000, entryPruningTailSize: 1 },
        partition_id: String::new(),
    }
}

/// Key store configuration with empty names, no clients and a KMS key ARN
/// configuration.
pub fn default_keystore_config<D, K>() -> (config: KeyStoreConfig<D, K>)
    ensures
        config.ddb_table_name@.len() == 0,
        config.kms_configuration_type == KmsConfigurationType::KmsKeyArn,
        config.kms_configuration_value@.len() == 0,
        config.logical_key_store_name@.len() == 0,
        config.id@.len() == 0,
        config.grant_tokens@.len() == 0,
        config.ddb_client is None,
        config.kms_client is None,
{
    KeyStoreConfig {
        ddb_table_name: String::new(),
        kms_configuration_type: KmsConfigurationType::KmsKeyArn,
        kms_configuration_value: String::new(),
        logical_key_store_name: String::new(),
        id: String::new(),
        grant_tokens: Vec::new(),
        ddb_client: None,
        kms_client: None,
    }
}

/// The retry configuration that overrides nothing: standard mode, every
/// number zero, every switch off.
pub open spec fn retry_overriding_nothing() -> RetryConfig {
    RetryConfig {
        mode_adaptive: false,
        max_attempts: 0,
        initial_backoff_milli: 0,
        max_backoff_milli: 0,
        reconnect_all: false,
        use_static_exponential_base: false,
    }
}

/// Returns the retry configuration that overrides nothing.
pub fn default_retry_config() -> (config: RetryConfig)
    ensures
        config == retry_overriding_nothing(),
{
    RetryConfig {
        mode_adaptive: false,
        max_attempts: 0,
        initial_backoff_milli: 0,
        max_backoff_milli: 0,
        reconnect_all: false,
        use_static_exponential_base: false,
    }
}

/// Client configuration that reads the environment, names no region and
/// keeps the default retry configuration.
pub fn default_client_config() -> (config: MplAwsClientConfig)
    ensures
        config.env,
        config.region@.len() == 0,
        config.retry == retry_overriding_nothing(),
{
    MplAwsClientConfig { env: true, region: String::new(), retry: default_retry_config() }
}

/// Copies a string.
pub(crate) fn copy_string(s: &String) -> (copy: String)
    ensures
        copy@ == s@,
{
    s.as_str().to_owned()
}

/// Copies a list of strings.
pub(crate) fn copy_strings(strings: &Vec<String>) -> (copy: Vec<String>)
    ensures
        copy@ == strings@,
{
    let mut copy: Vec<String> = Vec::new();
    let mut i: usize = 0;
    while i < strings.len()
        invariant
            i <= strings.len(),
            copy@ == strings@.take(i as int),
        decreases strings.len() - i,
    {
        copy.push(strings[i].clone());
        i = i + 1;
        assert(copy@ =~= strings@.take(i as int));
    }
    assert(strings@.take(strings.len() as int) =~= strings@);
    copy
}

} // verus!
