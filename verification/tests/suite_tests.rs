use aws_mpl_cxx::bridge::{
    default_client_config, default_decryption_materials, default_encryption_materials,
    default_hierarchical_keyring_input, default_keystore_config, default_retry_config, CacheType,
    EsdkAlgorithmSuiteId, KeyStoreConfig, KmsConfigurationType,
};
use aws_mpl_cxx::suite::{
    alg_id, binary_from_id, id_from_suite, is_esdk_suite, AlgorithmSuiteIdentifier,
    AlgorithmSuiteInfo,
};

const ALL_SUITES: [(EsdkAlgorithmSuiteId, u16); 11] = [
    (EsdkAlgorithmSuiteId::AlgAes128GcmIv12Tag16NoKdf, 0x0014),
    (EsdkAlgorithmSuiteId::AlgAes192GcmIv12Tag16NoKdf, 0x0046),
    (EsdkAlgorithmSuiteId::AlgAes256GcmIv12Tag16NoKdf, 0x0078),
    (EsdkAlgorithmSuiteId::AlgAes128GcmIv12Tag16HkdfSha256, 0x0114),
    (EsdkAlgorithmSuiteId::AlgAes192GcmIv12Tag16HkdfSha256, 0x0146),
    (EsdkAlgorithmSuiteId::AlgAes256GcmIv12Tag16HkdfSha256, 0x0178),
    (EsdkAlgorithmSuiteId::AlgAes128GcmIv12Tag16HkdfSha256EcdsaP256, 0x0214),
    (EsdkAlgorithmSuiteId::AlgAes192GcmIv12Tag16HkdfSha384EcdsaP384, 0x0346),
    (EsdkAlgorithmSuiteId::AlgAes256GcmIv12Tag16HkdfSha384EcdsaP384, 0x0378),
    (EsdkAlgorithmSuiteId::AlgAes256GcmHkdfSha512CommitKey, 0x0478),
    (EsdkAlgorithmSuiteId::AlgAes256GcmHkdfSha512CommitKeyEcdsaP384, 0x0578),
];

#[test]
fn alg_id_gives_message_format_numbers() {
    for (suite, number) in ALL_SUITES {
        assert_eq!(alg_id(suite), number);
    }
}

#[test]
fn alg_id_is_injective_on_all_suites() {
    for (a, _) in ALL_SUITES {
        for (b, _) in ALL_SUITES {
            assert_eq!(alg_id(a) == alg_id(b), a == b);
        }
    }
}

#[test]
fn binary_from_id_is_big_endian() {
    assert_eq!(binary_from_id(0x0578), [0x05, 0x78]);
    assert_eq!(binary_from_id(0x0014), [0x00, 0x14]);
    assert_eq!(binary_from_id(0), [0, 0]);
    assert_eq!(binary_from_id(0xffff), [0xff, 0xff]);
    assert_eq!(binary_from_id(0x1234), [0x12, 0x34]);
}

#[test]
fn binary_from_id_reads_back() {
    for id in [0u16, 1, 0x00ff, 0x0100, 0x0578, 0xabcd, 0xffff] {
        let b = binary_from_id(id);
        assert_eq!(u16::from_be_bytes(b), id);
    }
}

#[test]
fn suite_bytes_of_committing_suite() {
    let id = alg_id(EsdkAlgorithmSuiteId::AlgAes256GcmHkdfSha512CommitKey);
    assert_eq!(binary_from_id(id), [0x04, 0x78]);
}

#[test]
fn id_from_suite_reads_esdk_suite() {
    let info = AlgorithmSuiteInfo {
        id: Some(AlgorithmSuiteIdentifier::Esdk(EsdkAlgorithmSuiteId::AlgAes192GcmIv12Tag16HkdfSha256)),
    };
    assert!(is_esdk_suite(&info));
    assert_eq!(id_from_suite(&info), EsdkAlgorithmSuiteId::AlgAes192GcmIv12Tag16HkdfSha256);
}

#[test]
fn is_esdk_suite_rejects_others() {
    assert!(!is_esdk_suite(&AlgorithmSuiteInfo { id: None }));
    assert!(!is_esdk_suite(&AlgorithmSuiteInfo { id: Some(AlgorithmSuiteIdentifier::Dbe) }));
    assert!(!is_esdk_suite(&AlgorithmSuiteInfo { id: Some(AlgorithmSuiteIdentifier::Unknown) }));
}

#[test]
fn default_materials_use_committing_ecdsa_suite() {
    let e = default_encryption_materials();
    assert_eq!(e.algorithm_suite_id, EsdkAlgorithmSuiteId::AlgAes256GcmHkdfSha512CommitKeyEcdsaP384);
    assert!(e.encryption_context.is_empty());
    assert!(e.encrypted_data_keys.is_empty());
    assert!(e.required_encryption_context_keys.is_empty());
    assert!(e.plaintext_data_key.is_empty());
    assert!(e.signing_key.is_empty());
    assert!(e.symmetric_signing_keys.is_empty());
    let d = default_decryption_materials();
    assert_eq!(d.algorithm_suite_id, EsdkAlgorithmSuiteId::AlgAes256GcmHkdfSha512CommitKeyEcdsaP384);
    assert!(d.encryption_context.is_empty());
    assert!(d.required_encryption_context_keys.is_empty());
    assert!(d.plaintext_data_key.is_empty());
    assert!(d.verification_key.is_empty());
    assert!(d.symmetric_signing_key.is_empty());
    assert_eq!(alg_id(d.algorithm_suite_id), 0x0578);
}

#[test]
fn default_keyring_input_values() {
    let input = default_hierarchical_keyring_input::<u8>();
    assert_eq!(input.branch_key_id, "");
    assert!(input.key_store.is_none());
    assert_eq!(input.ttl, 300);
    assert_eq!(input.cache, CacheType::MultiThreadedCache);
    assert_eq!(input.multi_threaded_cache.entryCapacity, 1000);
    assert_eq!(input.multi_threaded_cache.entryPruningTailSize, 1);
    assert_eq!(input.partition_id, "");
}

#[test]
fn default_keystore_config_values() {
    let config: KeyStoreConfig<u8, u8> = default_keystore_config();
    assert_eq!(config.ddb_table_name, "");
    assert_eq!(config.kms_configuration_type, KmsConfigurationType::KmsKeyArn);
    assert_eq!(config.kms_configuration_value, "");
    assert_eq!(config.logical_key_store_name, "");
    assert_eq!(config.id, "");
    assert!(config.grant_tokens.is_empty());
    assert!(config.ddb_client.is_none());
    assert!(config.kms_client.is_none());
}

#[test]
fn default_client_and_retry_config_values() {
    let retry = default_retry_config();
    assert!(!retry.mode_adaptive);
    assert_eq!(retry.max_attempts, 0);
    assert_eq!(retry.initial_backoff_milli, 0);
    assert_eq!(retry.max_backoff_milli, 0);
    assert!(!retry.reconnect_all);
    assert!(!retry.use_static_exponential_base);
    let client = default_client_config();
    assert!(client.env);
    assert_eq!(client.region, "");
    assert_eq!(client.retry, retry);
}
