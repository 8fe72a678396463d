//! The retry configuration that the AWS clients are built with.
use crate::bridge::RetryConfig;
use vstd::prelude::*;

verus! {

/// A retry configuration in the SDK's terms: the retry mode, and each setting
/// that replaces the SDK's own value (`None` or `false` keeps the SDK's).
#[derive(Clone, Copy, Debug, PartialEq, Eq, Structural)]
pub struct RetrySettings {
    pub adaptive: bool,
    pub max_attempts: Option<u32>,
    pub initial_backoff_millis: Option<u64>,
    pub max_backoff_millis: Option<u64>,
    pub reuse_all_connections: bool,
    pub use_static_exponential_base: bool,
}

/// Reads the C++ side's retry configuration: adaptive or standard mode, and
/// each number replaces the SDK's value only when it is not zero.
pub fn make_retry_config(config: &RetryConfig) -> (settings: RetrySettings)
    ensures
        settings.adaptive == config.mode_adaptive,
        settings.max_attempts == (if config.max_attempts > 0 {
            Some(config.max_attempts)
        } else {
            None
        }),
        settings.initial_backoff_millis == (if config.initial_backoff_milli > 0 {
            Some(config.initial_backoff_milli)
        } else {
            None
        }),
        settings.max_backoff_millis == (if config.max_backoff_milli > 0 {
            Some(config.max_backoff_milli)
        } else {
            None
        }),
        settings.reuse_all_connections == config.reconnect_all,
        settings.use_static_exponential_base == config.use_static_exponential_base,
{
    let mut settings = RetrySettings {
        adaptive: config.mode_adaptive,
        max_attempts: None,
        initial_backoff_millis: None,
        max_backoff_millis: None,
        reuse_all_connections: false,
        use_static_exponential_base: false,
    };
    if config.max_attempts > 0 {
        settings.max_attempts = Some(config.max_attempts);
    }
    if config.initial_backoff_milli > 0 {
        settings.initial_backoff_millis = Some(config.initial_backoff_milli);
    }
    if config.max_backoff_milli > 0 {
        settings.max_backoff_millis = Some(config.max_backoff_milli);
    }
    if config.reconnect_all {
        settings.reuse_all_connections = true;
    }
    if config.use_static_exponential_base {
        settings.use_static_exponential_base = true;
    }
    settings
}

} // verus!
