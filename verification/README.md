# aws_mpl_cxx

The Rust half of a C++ binding to the AWS Cryptographic Material Providers
Library: C++ code creates AWS clients, a branch-key store and hierarchical
keyrings through it, and asks a keyring to complete encryption and decryption
materials.

- `src/` is the verified library (Verus). It holds the records that cross the
  bridge and their defaults (`bridge`), algorithm-suite numbers and their
  two-byte encoding (`suite`), byte blobs (`blob`), encryption contexts
  (`context`), encrypted data keys and materials in both directions
  (`materials`), and the checks and choices made before a key store, a keyring
  or an SDK configuration is built (`keystore`, `keyring`, `retry`, `sdk`).
- `app/` is the `cxx` bridge itself: the C++-visible records and handles, the
  shared Tokio runtime, and the calls that load AWS configuration and reach
  KMS, DynamoDB, the key store and the keyrings.
- `tests/` exercises the library on concrete values.
