use aws_mpl_cxx::bridge::{
    default_hierarchical_keyring_input, default_keystore_config, default_retry_config, CacheType,
    HierarchicalKeyringInput, KeyStoreConfig, KmsConfigurationType, RetryConfig,
};
use aws_mpl_cxx::keyring::{hierarchical_keyring_plan, make_cache_type, CacheConfig};
use aws_mpl_cxx::keystore::{keystore_plan, make_kms_config, KmsConfiguration};
use aws_mpl_cxx::retry::make_retry_config;
use aws_mpl_cxx::sdk::{app_name_with_user_agent, region_override, sdk_app_name};

fn valid_keystore_config() -> KeyStoreConfig<&'static str, &'static str> {
    let mut config = default_keystore_config();
    config.ddb_client = Some("ddb");
    config.kms_client = Some("kms");
    config.ddb_table_name = "table".to_string();
    config.logical_key_store_name = "logical".to_string();
    config.kms_configuration_value = "arn:aws:kms:us-west-2:1:key/1".to_string();
    config
}

#[test]
fn make_kms_config_for_each_type() {
    let mut config = valid_keystore_config();
    assert_eq!(
        make_kms_config(&config),
        Ok(KmsConfiguration::KmsKeyArn("arn:aws:kms:us-west-2:1:key/1".to_string()))
    );
    config.kms_configuration_type = KmsConfigurationType::KmsMrKeyArn;
    assert_eq!(
        make_kms_config(&config),
        Ok(KmsConfiguration::KmsMrKeyArn("arn:aws:kms:us-west-2:1:key/1".to_string()))
    );
    config.kms_configuration_type = KmsConfigurationType::Discovery;
    assert_eq!(make_kms_config(&config), Ok(KmsConfiguration::Discovery));
    config.kms_configuration_type = KmsConfigurationType::MrDiscovery;
    assert_eq!(make_kms_config(&config), Ok(KmsConfiguration::MrDiscovery));
    config.kms_configuration_type = KmsConfigurationType::Unrecognized;
    assert_eq!(make_kms_config(&config), Err("Invalid KmsConfigurationType".to_string()));
}

#[test]
fn keystore_plan_refusals_in_order() {
    let config: KeyStoreConfig<&str, &str> = default_keystore_config();
    assert_eq!(keystore_plan(&config).unwrap_err(), "kms_client is null in create_keystore");
    let mut config = valid_keystore_config();
    config.kms_client = None;
    config.ddb_client = None;
    assert_eq!(keystore_plan(&config).unwrap_err(), "kms_client is null in create_keystore");
    let mut config = valid_keystore_config();
    config.ddb_client = None;
    config.ddb_table_name = String::new();
    assert_eq!(keystore_plan(&config).unwrap_err(), "ddb_client is null in create_keystore");
    let mut config = valid_keystore_config();
    config.ddb_table_name = String::new();
    config.kms_configuration_type = KmsConfigurationType::Unrecognized;
    assert_eq!(keystore_plan(&config).unwrap_err(), "ddb_table_name is empty in create_keystore");
    let mut config = valid_keystore_config();
    config.logical_key_store_name = String::new();
    config.kms_configuration_type = KmsConfigurationType::Unrecognized;
    assert_eq!(
        keystore_plan(&config).unwrap_err(),
        "logical_key_store_name is empty in create_keystore"
    );
    let mut config = valid_keystore_config();
    config.kms_configuration_type = KmsConfigurationType::Unrecognized;
    assert_eq!(keystore_plan(&config).unwrap_err(), "Invalid KmsConfigurationType");
}

#[test]
fn keystore_plan_of_accepted_config() {
    let config = valid_keystore_config();
    let plan = keystore_plan(&config).unwrap();
    assert_eq!(*plan.kms_client, "kms");
    assert_eq!(*plan.ddb_client, "ddb");
    assert_eq!(plan.ddb_table_name, "table");
    assert_eq!(plan.logical_key_store_name, "logical");
    assert_eq!(
        plan.kms_configuration,
        KmsConfiguration::KmsKeyArn("arn:aws:kms:us-west-2:1:key/1".to_string())
    );
    assert_eq!(plan.id, None);
    assert_eq!(plan.grant_tokens, None);

    let mut config = valid_keystore_config();
    config.id = "store-1".to_string();
    config.grant_tokens = vec!["t1".to_string(), "t2".to_string()];
    config.kms_configuration_type = KmsConfigurationType::Discovery;
    let plan = keystore_plan(&config).unwrap();
    assert_eq!(plan.id.as_deref(), Some("store-1"));
    assert_eq!(plan.grant_tokens, Some(vec!["t1".to_string(), "t2".to_string()]));
    assert_eq!(plan.kms_configuration, KmsConfiguration::Discovery);
}

#[test]
fn make_cache_type_for_each_type() {
    let mut input: HierarchicalKeyringInput<u8> = default_hierarchical_keyring_input();
    assert_eq!(
        make_cache_type(&input),
        Ok(CacheConfig::MultiThreaded { entry_capacity: 1000, entry_pruning_tail_size: 1 })
    );
    input.cache = CacheType::NoCache;
    assert_eq!(make_cache_type(&input), Ok(CacheConfig::NoCache));
    input.cache = CacheType::Unrecognized;
    assert_eq!(
        make_cache_type(&input),
        Err("Invalid CacheType in HierarchicalKeyringInput".to_string())
    );
}

#[test]
fn make_cache_type_wraps_large_sizes() {
    let mut input: HierarchicalKeyringInput<u8> = default_hierarchical_keyring_input();
    input.multi_threaded_cache.entryCapacity = u32::MAX;
    input.multi_threaded_cache.entryPruningTailSize = 0x8000_0000;
    assert_eq!(
        make_cache_type(&input),
        Ok(CacheConfig::MultiThreaded { entry_capacity: -1, entry_pruning_tail_size: i32::MIN })
    );
}

#[test]
fn keyring_plan_refusals_in_order() {
    let input: HierarchicalKeyringInput<u8> = default_hierarchical_keyring_input();
    assert_eq!(
        hierarchical_keyring_plan(&input).unwrap_err(),
        "key_store is null in create_hierarchical_keyring"
    );
    let mut input: HierarchicalKeyringInput<u8> = default_hierarchical_keyring_input();
    input.cache = CacheType::Unrecognized;
    assert_eq!(
        hierarchical_keyring_plan(&input).unwrap_err(),
        "Invalid CacheType in HierarchicalKeyringInput"
    );
}

#[test]
fn keyring_plan_of_accepted_input() {
    let mut input: HierarchicalKeyringInput<u8> = default_hierarchical_keyring_input();
    input.key_store = Some(7);
    input.branch_key_id = "branch".to_string();
    input.ttl = 60;
    let plan = hierarchical_keyring_plan(&input).unwrap();
    assert_eq!(plan.cache, CacheConfig::MultiThreaded { entry_capacity: 1000, entry_pruning_tail_size: 1 });
    assert_eq!(plan.branch_key_id, "branch");
    assert_eq!(plan.ttl_seconds, 60);
    assert_eq!(*plan.key_store, 7);
    assert_eq!(plan.partition_id, None);
    input.partition_id = "part".to_string();
    input.cache = CacheType::NoCache;
    let plan = hierarchical_keyring_plan(&input).unwrap();
    assert_eq!(plan.partition_id.as_deref(), Some("part"));
    assert_eq!(plan.cache, CacheConfig::NoCache);
}

#[test]
fn retry_settings_from_defaults_change_nothing() {
    let settings = make_retry_config(&default_retry_config());
    assert!(!settings.adaptive);
    assert_eq!(settings.max_attempts, None);
    assert_eq!(settings.initial_backoff_millis, None);
    assert_eq!(settings.max_backoff_millis, None);
    assert!(!settings.reuse_all_connections);
    assert!(!settings.use_static_exponential_base);
}

#[test]
fn retry_settings_from_full_config() {
    let settings = make_retry_config(&RetryConfig {
        mode_adaptive: true,
        max_attempts: 5,
        initial_backoff_milli: 250,
        max_backoff_milli: 20_000,
        reconnect_all: true,
        use_static_exponential_base: true,
    });
    assert!(settings.adaptive);
    assert_eq!(settings.max_attempts, Some(5));
    assert_eq!(settings.initial_backoff_millis, Some(250));
    assert_eq!(settings.max_backoff_millis, Some(20_000));
    assert!(settings.reuse_all_connections);
    assert!(settings.use_static_exponential_base);
}

#[test]
fn app_name_carries_user_agent() {
    assert_eq!(app_name_with_user_agent(""), "AwsCryptographicMPL-C++-1.11.1");
    assert_eq!(app_name_with_user_agent("myapp"), "myapp AwsCryptographicMPL-C++-1.11.1 ");
}

#[test]
fn sdk_app_name_accepted_only_without_configured_name() {
    let name = sdk_app_name("").expect("user agent alone is a valid app name");
    assert_eq!(name.as_ref(), "AwsCryptographicMPL-C++-1.11.1");
    assert!(sdk_app_name("myapp").is_none());
}

#[test]
fn region_override_only_when_named() {
    assert_eq!(region_override(&String::new()), None);
    assert_eq!(region_override(&"us-east-1".to_string()), Some("us-east-1".to_string()));
}
