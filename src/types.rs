//! Value types of the identity layer that the account data is built from.
use vstd::prelude::*;

verus! {

/// Declares `either::Either`, the enum of two variants `Left(L)` and
/// `Right(R)`, with those variants visible to the verifier.
#[verifier::external_type_specification]
#[verifier::reject_recursive_types(L)]
#[verifier::reject_recursive_types(R)]
pub struct ExEither<L, R>(either::Either<L, R>);

/// Minimum number of signatures, each under a distinct key index, that
/// authorizes an action on behalf of an account.
#[derive(Clone, Copy, Debug, PartialEq, Eq, Structural)]
pub struct SignatureThreshold(pub u8);

/// A public Ed25519 verification key, held as its 32 bytes.
#[derive(Clone, Copy, Debug, PartialEq, Eq)]
pub enum VerifyKey {
    Ed25519VerifyKey([u8; 32]),
}

/// A signature proving ownership of an account key, held as its 64 bytes.
#[derive(Clone, Copy, Debug, PartialEq, Eq)]
pub struct AccountOwnershipSignature(pub [u8; 64]);

/// The address of an account deployed on chain.
#[derive(Clone, Copy, Debug, PartialEq, Eq)]
pub struct AccountAddress(pub [u8; 32]);

/// What an account holder sends the identity provider about the account to
/// be created, in its serialized form: the data that ownership signatures
/// are made over.
#[derive(Clone, Debug, PartialEq, Eq)]
pub struct PublicInformationForIP {
    pub bytes: Vec<u8>,
}

} // verus!
