//! Account-ownership data for credential issuance: the keys and signature
//! threshold of an account, its initial and existing variants, the signing
//! projection toward an identity provider, and the base16 envelope of the
//! signature-retrieval randomness.
pub mod account;
pub mod base16;
pub mod randomness;
pub mod types;
