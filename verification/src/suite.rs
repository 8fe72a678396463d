//! Algorithm-suite identifiers: their numbers, their two-byte encoding, and
//! the suite named by a keyring's algorithm-suite description.
use crate::bridge::EsdkAlgorithmSuiteId;
use vstd::prelude::*;

verus! {

/// The number that the message format gives each suite.
pub open spec fn suite_number(value: EsdkAlgorithmSuiteId) -> u16 {
    match value {
        EsdkAlgorithmSuiteId::AlgAes128GcmIv12Tag16NoKdf => 0x0014,
        EsdkAlgorithmSuiteId::AlgAes192GcmIv12Tag16NoKdf => 0x0046,
        EsdkAlgorithmSuiteId::AlgAes256GcmIv12Tag16NoKdf => 0x0078,
        EsdkAlgorithmSuiteId::AlgAes128GcmIv12Tag16HkdfSha256 => 0x0114,
        EsdkAlgorithmSuiteId::AlgAes192GcmIv12Tag16HkdfSha256 => 0x0146,
        EsdkAlgorithmSuiteId::AlgAes256GcmIv12Tag16HkdfSha256 => 0x0178,
        EsdkAlgorithmSuiteId::AlgAes128GcmIv12Tag16HkdfSha256EcdsaP256 => 0x0214,
        EsdkAlgorithmSuiteId::AlgAes192GcmIv12Tag16HkdfSha384EcdsaP384 => 0x0346,
        EsdkAlgorithmSuiteId::AlgAes256GcmIv12Tag16HkdfSha384EcdsaP384 => 0x0378,
        EsdkAlgorithmSuiteId::AlgAes256GcmHkdfSha512CommitKey => 0x0478,
        EsdkAlgorithmSuiteId::AlgAes256GcmHkdfSha512CommitKeyEcdsaP384 => 0x0578,
    }
}

/// Returns the message-format number of a suite.
pub fn alg_id(value: EsdkAlgorithmSuiteId) -> (id: u16)
    ensures
        id == suite_number(value),
{
    match value {
        EsdkAlgorithmSuiteId::AlgAes128GcmIv12Tag16NoKdf => 0x0014,
        EsdkAlgorithmSuiteId::AlgAes192GcmIv12Tag16NoKdf => 0x0046,
        EsdkAlgorithmSuiteId::AlgAes256GcmIv12Tag16NoKdf => 0x0078,
        EsdkAlgorithmSuiteId::AlgAes128GcmIv12Tag16HkdfSha256 => 0x0114,
        EsdkAlgorithmSuiteId::AlgAes192GcmIv12Tag16HkdfSha256 => 0x0146,
        EsdkAlgorithmSuiteId::AlgAes256GcmIv12Tag16HkdfSha256 => 0x0178,
        EsdkAlgorithmSuiteId::AlgAes128GcmIv12Tag16HkdfSha256EcdsaP256 => 0x0214,
        EsdkAlgorithmSuiteId::AlgAes192GcmIv12Tag16HkdfSha384EcdsaP384 => 0x0346,
        EsdkAlgorithmSuiteId::AlgAes256GcmIv12Tag16HkdfSha384EcdsaP384 => 0x0378,
        EsdkAlgorithmSuiteId::AlgAes256GcmHkdfSha512CommitKey => 0x0478,
        EsdkAlgorithmSuiteId::AlgAes256GcmHkdfSha512CommitKeyEcdsaP384 => 0x0578,
    }
}

/// Distinct suites have distinct numbers.
pub proof fn lemma_suite_number_injective(a: EsdkAlgorithmSuiteId, b: EsdkAlgorithmSuiteId)
    ensures
        suite_number(a) == suite_number(b) ==> a == b,
{
}

/// Splits a suite number into its two bytes, most significant first.
pub fn binary_from_id(id: u16) -> (bytes: [u8; 2])
    ensures
        bytes[0] == id / 256,
        bytes[1] == id % 256,
        bytes[0] * 256 + bytes[1] == id,
{
    let high: u8 = (id >> 8) as u8;
    let low: u8 = (id & 0xff) as u8;
    assert(high == id / 256 && low == id % 256) by (bit_vector)
        requires
            high == (id >> 8) as u8,
            low == (id & 0xff) as u8,
    ;
    [high, low]
}

/// The algorithm suite a keyring names: a suite of the AWS Encryption SDK,
/// one of the DynamoDB encryption client, or one this library does not know.
#[derive(Clone, Copy, Debug, PartialEq, Eq, Structural)]
pub enum AlgorithmSuiteIdentifier {
    Esdk(EsdkAlgorithmSuiteId),
    Dbe,
    Unknown,
}

/// What the library reads of a keyring's algorithm-suite description: the
/// suite it names, if any.
#[derive(Clone, Copy, Debug, PartialEq, Eq, Structural)]
pub struct AlgorithmSuiteInfo {
    pub id: Option<AlgorithmSuiteIdentifier>,
}

/// The description names a suite of the AWS Encryption SDK.
pub open spec fn names_esdk_suite(info: AlgorithmSuiteInfo) -> bool {
    info.id matches Some(AlgorithmSuiteIdentifier::Esdk(_))
}

/// Tells whether a suite description names a suite of the AWS Encryption SDK.
pub fn is_esdk_suite(info: &AlgorithmSuiteInfo) -> (b: bool)
    ensures
        b == names_esdk_suite(*info),
        forall|e: EsdkAlgorithmSuiteId| info.id == Some(AlgorithmSuiteIdentifier::Esdk(e)) ==> b,
        info.id is None || info.id == Some(AlgorithmSuiteIdentifier::Dbe) || info.id == Some(
            AlgorithmSuiteIdentifier::Unknown,
        ) ==> !b,
{
    match info.id {
        Some(AlgorithmSuiteIdentifier::Esdk(_)) => true,
        _ => false,
    }
}

/// Every one of the AWS Encryption SDK suites is recognised as one, and a
/// description that names no suite, a DynamoDB encryption suite or an unknown
/// one is not.
pub proof fn lemma_names_esdk_suite_exactly(e: EsdkAlgorithmSuiteId)
    ensures
        names_esdk_suite(AlgorithmSuiteInfo { id: Some(AlgorithmSuiteIdentifier::Esdk(e)) }),
        !names_esdk_suite(AlgorithmSuiteInfo { id: None }),
        !names_esdk_suite(AlgorithmSuiteInfo { id: Some(AlgorithmSuiteIdentifier::Dbe) }),
        !names_esdk_suite(AlgorithmSuiteInfo { id: Some(AlgorithmSuiteIdentifier::Unknown) }),
{
}

/// The AWS Encryption SDK suite that a description names.
pub fn id_from_suite(input: &AlgorithmSuiteInfo) -> (id: EsdkAlgorithmSuiteId)
    requires
        names_esdk_suite(*input),
    ensures
        input.id == Some(AlgorithmSuiteIdentifier::Esdk(id)),
{
    match input.id {
        Some(AlgorithmSuiteIdentifier::Esdk(e)) => e,
        _ => unreached(),
    }
}

} // verus!
