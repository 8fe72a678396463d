//! The decisions taken before a hierarchical keyring is built: its cache,
//! its key store and its optional partition, and which input is refused.
use crate::bridge::{copy_string, CacheType, HierarchicalKeyringInput};
use vstd::prelude::*;

verus! {

/// The cache of a hierarchical keyring, in the keyring library's terms.
#[derive(Clone, Copy, Debug, PartialEq, Eq, Structural)]
pub enum CacheConfig {
    NoCache,
    MultiThreaded { entry_capacity: i32, entry_pruning_tail_size: i32 },
}

/// The cache that a keyring input names: no cache, or a multi-threaded
/// cache whose sizes are the input's, read as signed 32-bit numbers (so a
/// size above `i32::MAX` wraps around); a cache type the C++ side sent outside
/// the named ones is refused.
pub fn make_cache_type<S>(config: &HierarchicalKeyringInput<S>) -> (r: Result<CacheConfig, String>)
    ensures
        r is Err <==> config.cache == CacheType::Unrecognized,
        config.cache == CacheType::NoCache ==> r == Ok::<CacheConfig, String>(CacheConfig::NoCache),
        config.cache == CacheType::MultiThreadedCache ==> r == Ok::<CacheConfig, String>(
            CacheConfig::MultiThreaded {
                entry_capacity: config.multi_threaded_cache.entryCapacity as i32,
                entry_pruning_tail_size: config.multi_threaded_cache.entryPruningTailSize as i32,
            },
        ),
        r matches Err(e) ==> e@ == "Invalid CacheType in HierarchicalKeyringInput"@,
{
    match config.cache {
        CacheType::NoCache => Ok(CacheConfig::NoCache),
        CacheType::MultiThreadedCache => {
            let entry_capacity = config.multi_threaded_cache.entryCapacity;
            let entry_pruning_tail_size = config.multi_threaded_cache.entryPruningTailSize;
            Ok(
                CacheConfig::MultiThreaded {
                    entry_capacity: #[verifier::truncate] (entry_capacity as i32),
                    entry_pruning_tail_size: #[verifier::truncate] (entry_pruning_tail_size as i32),
                },
            )
        },
        CacheType::Unrecognized => Err("Invalid CacheType in HierarchicalKeyringInput".to_owned()),
    }
}

/// Everything a hierarchical keyring is built from, once the input is
/// accepted.
#[derive(Debug)]
pub struct HierarchicalKeyringPlan<'a, S> {
    pub cache: CacheConfig,
    pub branch_key_id: String,
    pub ttl_seconds: u32,
    pub key_store: &'a S,
    pub partition_id: Option<String>,
}

/// Why a keyring input is refused, checked in this order; `None` when it is
/// accepted.
pub open spec fn keyring_refusal<S>(input: HierarchicalKeyringInput<S>) -> Option<Seq<char>> {
    if input.cache == CacheType::Unrecognized {
        Some("Invalid CacheType in HierarchicalKeyringInput"@)
    } else if input.key_store is None {
        Some("key_store is null in create_hierarchical_keyring"@)
    } else {
        None
    }
}

/// An input with a named cache type and a key store is accepted, whatever
/// its TTL, branch key id, cache sizes and partition id; its plan keeps the
/// TTL as given.
pub proof fn lemma_keyring_input_accepted<S>(input: HierarchicalKeyringInput<S>, plan: HierarchicalKeyringPlan<S>)
    requires
        input.cache == CacheType::NoCache || input.cache == CacheType::MultiThreadedCache,
        input.key_store is Some,
    ensures
        keyring_refusal(input) is None,
        keyring_plan_of(input, plan) ==> plan.ttl_seconds == input.ttl,
{
}

/// The plan carries an accepted input: its cache, branch key id, TTL and key
/// store, and the partition id only when not empty.
pub open spec fn keyring_plan_of<S>(input: HierarchicalKeyringInput<S>, plan: HierarchicalKeyringPlan<S>) -> bool {
    &&& input.cache == CacheType::NoCache ==> plan.cache == CacheConfig::NoCache
    &&& input.cache == CacheType::MultiThreadedCache ==> plan.cache == (CacheConfig::MultiThreaded {
        entry_capacity: input.multi_threaded_cache.entryCapacity as i32,
        entry_pruning_tail_size: input.multi_threaded_cache.entryPruningTailSize as i32,
    })
    &&& plan.branch_key_id@ == input.branch_key_id@
    &&& plan.ttl_seconds == input.ttl
    &&& input.key_store == Some(*plan.key_store)
    &&& if input.partition_id@.len() == 0 {
        plan.partition_id is None
    } else {
        plan.partition_id matches Some(p) && p@ == input.partition_id@
    }
}

/// Checks a keyring input and lays out what the keyring is built from; a
/// refused input gives the reason.
pub fn hierarchical_keyring_plan<'a, S>(input: &'a HierarchicalKeyringInput<S>) -> (r: Result<
    HierarchicalKeyringPlan<'a, S>,
    String,
>)
    ensures
        r is Err <==> keyring_refusal(*input) is Some,
        r matches Err(e) ==> Some(e@) == keyring_refusal(*input),
        r matches Ok(plan) ==> keyring_plan_of(*input, plan),
        input.cache != CacheType::Unrecognized && input.key_store is Some ==> r is Ok,
{
    let cache = match make_cache_type(input) {
        Ok(c) => c,
        Err(e) => {
            return Err(e);
        },
    };
    let key_store = match &input.key_store {
        Some(store) => store,
        None => {
            return Err("key_store is null in create_hierarchical_keyring".to_owned());
        },
    };
    let partition_id = if input.partition_id.as_str().is_empty() {
        None
    } else {
        Some(copy_string(&input.partition_id))
    };
    Ok(
        HierarchicalKeyringPlan {
            cache,
            branch_key_id: copy_string(&input.branch_key_id),
            ttl_seconds: input.ttl,
            key_store,
            partition_id,
        },
    )
}

} // verus!
