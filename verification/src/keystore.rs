//! The decisions taken before a branch-key store is built: which client
//! handles, names and KMS configuration it gets, and which input is refused.
use crate::bridge::{copy_string, copy_strings, KeyStoreConfig, KmsConfigurationType};
use vstd::prelude::*;

verus! {

/// How a key store reaches AWS KMS, in the keyring library's terms.
#[derive(Debug, PartialEq, Eq)]
pub enum KmsConfiguration {
    KmsKeyArn(String),
    KmsMrKeyArn(String),
    Discovery,
    MrDiscovery,
}

/// `configuration` is what the configuration type and value stand for.
pub open spec fn kms_configuration_for(
    kind: KmsConfigurationType,
    value: Seq<char>,
    configuration: KmsConfiguration,
) -> bool {
    match kind {
        KmsConfigurationType::KmsKeyArn => configuration matches KmsConfiguration::KmsKeyArn(arn)
            && arn@ == value,
        KmsConfigurationType::KmsMrKeyArn => configuration matches KmsConfiguration::KmsMrKeyArn(arn)
            && arn@ == value,
        KmsConfigurationType::Discovery => configuration is Discovery,
        KmsConfigurationType::MrDiscovery => configuration is MrDiscovery,
        KmsConfigurationType::Unrecognized => false,
    }
}

/// The KMS configuration that a key store configuration names; a type the
/// C++ side sent outside the named ones is refused.
pub fn make_kms_config<D, K>(config: &KeyStoreConfig<D, K>) -> (r: Result<KmsConfiguration, String>)
    ensures
        r is Err <==> config.kms_configuration_type == KmsConfigurationType::Unrecognized,
        r matches Ok(c) ==> kms_configuration_for(
            config.kms_configuration_type,
            config.kms_configuration_value@,
            c,
        ),
        r matches Err(e) ==> e@ == "Invalid KmsConfigurationType"@,
{
    match config.kms_configuration_type {
        KmsConfigurationType::KmsKeyArn => Ok(
            KmsConfiguration::KmsKeyArn(copy_string(&config.kms_configuration_value)),
        ),
        KmsConfigurationType::KmsMrKeyArn => Ok(
            KmsConfiguration::KmsMrKeyArn(copy_string(&config.kms_configuration_value)),
        ),
        KmsConfigurationType::Discovery => Ok(KmsConfiguration::Discovery),
        KmsConfigurationType::MrDiscovery => Ok(KmsConfiguration::MrDiscovery),
        KmsConfigurationType::Unrecognized => Err("Invalid KmsConfigurationType".to_owned()),
    }
}

/// Everything a key store is built from, once the configuration is accepted.
#[derive(Debug)]
pub struct KeyStorePlan<'a, D, K> {
    pub kms_client: &'a K,
    pub ddb_client: &'a D,
    pub ddb_table_name: String,
    pub logical_key_store_name: String,
    pub kms_configuration: KmsConfiguration,
    pub id: Option<String>,
    pub grant_tokens: Option<Vec<String>>,
}

/// Why a key store configuration is refused, checked in this order; `None`
/// when it is accepted.
pub open spec fn keystore_refusal<D, K>(config: KeyStoreConfig<D, K>) -> Option<Seq<char>> {
    if config.kms_client is None {
        Some("kms_client is null in create_keystore"@)
    } else if config.ddb_client is None {
        Some("ddb_client is null in create_keystore"@)
    } else if config.ddb_table_name@.len() == 0 {
        Some("ddb_table_name is empty in create_keystore"@)
    } else if config.logical_key_store_name@.len() == 0 {
        Some("logical_key_store_name is empty in create_keystore"@)
    } else if config.kms_configuration_type == KmsConfigurationType::Unrecognized {
        Some("Invalid KmsConfigurationType"@)
    } else {
        None
    }
}

/// A configuration with both client handles, a table name, a logical name
/// and a named KMS configuration type is accepted, whatever its id, grant
/// tokens and configuration value; each named type gives its own KMS
/// configuration.
pub proof fn lemma_keystore_config_accepted<D, K>(config: KeyStoreConfig<D, K>, arn: String)
    requires
        config.kms_client is Some,
        config.ddb_client is Some,
        config.ddb_table_name@.len() > 0,
        config.logical_key_store_name@.len() > 0,
        config.kms_configuration_type != KmsConfigurationType::Unrecognized,
    ensures
        keystore_refusal(config) is None,
        arn@ == config.kms_configuration_value@ ==> (config.kms_configuration_type
            == KmsConfigurationType::KmsKeyArn ==> kms_configuration_for(
            config.kms_configuration_type,
            config.kms_configuration_value@,
            KmsConfiguration::KmsKeyArn(arn),
        )),
        arn@ == config.kms_configuration_value@ ==> (config.kms_configuration_type
            == KmsConfigurationType::KmsMrKeyArn ==> kms_configuration_for(
            config.kms_configuration_type,
            config.kms_configuration_value@,
            KmsConfiguration::KmsMrKeyArn(arn),
        )),
        config.kms_configuration_type == KmsConfigurationType::Discovery ==> kms_configuration_for(
            config.kms_configuration_type,
            config.kms_configuration_value@,
            KmsConfiguration::Discovery,
        ),
        config.kms_configuration_type == KmsConfigurationType::MrDiscovery ==> kms_configuration_for(
            config.kms_configuration_type,
            config.kms_configuration_value@,
            KmsConfiguration::MrDiscovery,
        ),
{
}

/// The plan carries an accepted configuration: both clients, both names, the
/// KMS configuration, and the id and grant tokens only when not empty.
pub open spec fn keystore_plan_of<D, K>(config: KeyStoreConfig<D, K>, plan: KeyStorePlan<D, K>) -> bool {
    &&& config.kms_client == Some(*plan.kms_client)
    &&& config.ddb_client == Some(*plan.ddb_client)
    &&& plan.ddb_table_name@ == config.ddb_table_name@
    &&& plan.logical_key_store_name@ == config.logical_key_store_name@
    &&& kms_configuration_for(
        config.kms_configuration_type,
        config.kms_configuration_value@,
        plan.kms_configuration,
    )
    &&& if config.id@.len() == 0 {
        plan.id is None
    } else {
        plan.id matches Some(id) && id@ == config.id@
    }
    &&& if config.grant_tokens@.len() == 0 {
        plan.grant_tokens is None
    } else {
        plan.grant_tokens matches Some(tokens) && tokens@ == config.grant_tokens@
    }
}

/// Checks a key store configuration and lays out what the key store is built
/// from; a refused configuration gives the reason.
pub fn keystore_plan<'a, D, K>(input: &'a KeyStoreConfig<D, K>) -> (r: Result<KeyStorePlan<'a, D, K>, String>)
    ensures
        r is Err <==> keystore_refusal(*input) is Some,
        r matches Err(e) ==> Some(e@) == keystore_refusal(*input),
        r matches Ok(plan) ==> keystore_plan_of(*input, plan),
        input.kms_client is Some && input.ddb_client is Some && input.ddb_table_name@.len() > 0
            && input.logical_key_store_name@.len() > 0 && input.kms_configuration_type
            != KmsConfigurationType::Unrecognized ==> r is Ok,
{
    let kms_client = match &input.kms_client {
        Some(client) => client,
        None => {
            return Err("kms_client is null in create_keystore".to_owned());
        },
    };
    let ddb_client = match &input.ddb_client {
        Some(client) => client,
        None => {
            return Err("ddb_client is null in create_keystore".to_owned());
        },
    };
    if input.ddb_table_name.as_str().is_empty() {
        return Err("ddb_table_name is empty in create_keystore".to_owned());
    }
    if input.logical_key_store_name.as_str().is_empty() {
        return Err("logical_key_store_name is empty in create_keystore".to_owned());
    }
    let kms_configuration = match make_kms_config(input) {
        Ok(c) => c,
        Err(e) => {
            return Err(e);
        },
    };
    let id = if input.id.as_str().is_empty() {
        None
    } else {
        Some(copy_string(&input.id))
    };
    let grant_tokens = if input.grant_tokens.is_empty() {
        None
    } else {
        Some(copy_strings(&input.grant_tokens))
    };
    Ok(
        KeyStorePlan {
            kms_client,
            ddb_client,
            ddb_table_name: copy_string(&input.ddb_table_name),
            logical_key_store_name: copy_string(&input.logical_key_store_name),
            kms_configuration,
            id,
            grant_tokens,
        },
    )
}

} // verus!
