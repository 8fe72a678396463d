//! Verified core of the C++ bridge to the AWS Cryptographic Material Providers
//! Library: the records that cross the bridge, their defaults, algorithm-suite
//! identifiers, encryption-context conversions, encrypted-data-key and
//! materials conversions, and the decisions taken before a key store, a
//! hierarchical keyring or an SDK configuration is built.
pub mod blob;
pub mod bridge;
pub mod context;
pub mod keyring;
pub mod keystore;
pub mod materials;
pub mod retry;
pub mod sdk;
pub mod suite;
