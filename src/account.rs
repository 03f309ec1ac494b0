//! Account data: the keys and signature threshold of an account, in its
//! initial and existing variants.
use vstd::prelude::*;
use std::collections::BTreeMap;
use either::Either;
use crate::types::{
    AccountAddress, AccountOwnershipSignature, PublicInformationForIP, SignatureThreshold,
    VerifyKey,
};

verus! {

/// Whether `threshold` signatures can be asked of an account with `key_count`
/// keys: at least one, and no more than there are keys.
pub open spec fn threshold_fits(threshold: SignatureThreshold, key_count: nat) -> bool {
    1 <= threshold.0 && threshold.0 as nat <= key_count
}

/// Why account data cannot be built.
#[derive(Clone, Copy, Debug, PartialEq, Eq, Structural)]
pub enum AccountDataError {
    /// A threshold of zero signatures.
    ZeroThreshold,
    /// A threshold above the number of keys.
    ThresholdExceedsKeys,
}

/// The error, if any, that a threshold gives for an account with
/// `key_count` keys.
pub open spec fn threshold_error(threshold: SignatureThreshold, key_count: nat) -> Option<AccountDataError> {
    if threshold.0 == 0 {
        Some(AccountDataError::ZeroThreshold)
    } else if threshold.0 as nat > key_count {
        Some(AccountDataError::ThresholdExceedsKeys)
    } else {
        None
    }
}

/// Accepts a threshold for an account with `key_count` keys, or says why not.
pub fn check_threshold(threshold: SignatureThreshold, key_count: usize) -> (r: Result<(), AccountDataError>)
    ensures
        r is Ok <==> threshold_fits(threshold, key_count as nat),
        r is Err ==> Some(r->Err_0) == threshold_error(threshold, key_count as nat),
{
    if threshold.0 == 0 {
        Err(AccountDataError::ZeroThreshold)
    } else if threshold.0 as usize > key_count {
        Err(AccountDataError::ThresholdExceedsKeys)
    } else {
        Ok(())
    }
}

/// A copy of a key list, in the same order.
fn copy_keys(keys: &Vec<VerifyKey>) -> (r: Vec<VerifyKey>)
    ensures
        r@ == keys@,
{
    let mut r: Vec<VerifyKey> = Vec::with_capacity(keys.len());
    let mut i: usize = 0;
    while i < keys.len()
        invariant
            i <= keys@.len(),
            r@ == keys@.subrange(0, i as int),
        decreases keys@.len() - i,
    {
        r.push(keys[i]);
        i = i + 1;
    }
    assert(r@ =~= keys@);
    r
}

/// The data of an account about to be created, before any ownership
/// signature exists.
pub struct InitialAccountDataStruct {
    public_keys: Vec<VerifyKey>,
    threshold: SignatureThreshold,
}

impl InitialAccountDataStruct {
    /// The keys of the account, in their order.
    pub closed spec fn public_keys(&self) -> Seq<VerifyKey> {
        self.public_keys@
    }

    /// The signature threshold of the account.
    pub closed spec fn threshold(&self) -> SignatureThreshold {
        self.threshold
    }

    /// The threshold can always be met by the keys.
    #[verifier::type_invariant]
    spec fn wf(&self) -> bool {
        threshold_fits(self.threshold, self.public_keys@.len())
    }

    /// Builds the data from its keys and threshold, refusing a threshold
    /// that the keys cannot meet.
    pub fn new(public_keys: Vec<VerifyKey>, threshold: SignatureThreshold) -> (r: Result<Self, AccountDataError>)
        ensures
            r is Ok <==> threshold_fits(threshold, public_keys@.len()),
            r is Ok ==> r->Ok_0.public_keys() == public_keys@ && r->Ok_0.threshold() == threshold,
            r is Err ==> Some(r->Err_0) == threshold_error(threshold, public_keys@.len()),
    {
        match check_threshold(threshold, public_keys.len()) {
            Ok(()) => Ok(InitialAccountDataStruct { public_keys, threshold }),
            Err(e) => Err(e),
        }
    }

    /// The number of signatures that authorize an action on the account:
    /// at least one, and no more than there are keys.
    pub fn get_threshold(&self) -> (r: SignatureThreshold)
        ensures
            r == self.threshold(),
            threshold_fits(r, self.public_keys().len()),
    {
        proof {
            use_type_invariant(self);
        }
        self.threshold
    }

    /// A copy of the keys, in their order.
    pub fn get_public_keys(&self) -> (r: Vec<VerifyKey>)
        ensures
            r@ == self.public_keys(),
    {
        copy_keys(&self.public_keys)
    }
}

/// The data of an account about to be created, with the ownership signature
/// that the holder made with its first key.
pub struct InitialAccountDataWithSignature {
    signature: AccountOwnershipSignature,
    public_keys: Vec<VerifyKey>,
    threshold: SignatureThreshold,
}

/// The key index (a position in the key list) under which the stored
/// ownership signature is published.
pub const SIGNING_KEY_INDEX: u8 = 0;

impl InitialAccountDataWithSignature {
    /// The ownership signature made with the first key.
    pub closed spec fn signature(&self) -> AccountOwnershipSignature {
        self.signature
    }

    /// The keys of the account, in their order.
    pub closed spec fn public_keys(&self) -> Seq<VerifyKey> {
        self.public_keys@
    }

    /// The signature threshold of the account.
    pub closed spec fn threshold(&self) -> SignatureThreshold {
        self.threshold
    }

    /// The threshold can always be met by the keys.
    #[verifier::type_invariant]
    spec fn wf(&self) -> bool {
        threshold_fits(self.threshold, self.public_keys@.len())
    }

    /// Builds the data from its signature, keys and threshold, refusing a
    /// threshold that the keys cannot meet.
    pub fn new(
        signature: AccountOwnershipSignature,
        public_keys: Vec<VerifyKey>,
        threshold: SignatureThreshold,
    ) -> (r: Result<Self, AccountDataError>)
        ensures
            r is Ok <==> threshold_fits(threshold, public_keys@.len()),
            r is Ok ==> r->Ok_0.signature() == signature && r->Ok_0.public_keys() == public_keys@
                && r->Ok_0.threshold() == threshold,
            r is Err ==> Some(r->Err_0) == threshold_error(threshold, public_keys@.len()),
    {
        match check_threshold(threshold, public_keys.len()) {
            Ok(()) => Ok(InitialAccountDataWithSignature { signature, public_keys, threshold }),
            Err(e) => Err(e),
        }
    }

    /// The number of signatures that authorize an action on the account:
    /// at least one, and no more than there are keys.
    pub fn get_threshold(&self) -> (r: SignatureThreshold)
        ensures
            r == self.threshold(),
            threshold_fits(r, self.public_keys().len()),
    {
        proof {
            use_type_invariant(self);
        }
        self.threshold
    }

    /// A copy of the keys, in their order.
    pub fn get_public_keys(&self) -> (r: Vec<VerifyKey>)
        ensures
            r@ == self.public_keys(),
    {
        copy_keys(&self.public_keys)
    }

    /// The signatures that authorize the account's public information toward
    /// the identity provider, by key index: the stored signature under index
    /// zero, and nothing else. The signature was made beforehand, so the
    /// content of `_pub_info` plays no part.
    pub fn sign_public_information_for_ip(&self, _pub_info: &PublicInformationForIP) -> (r: BTreeMap<u8, AccountOwnershipSignature>)
        ensures
            r@ == map![SIGNING_KEY_INDEX => self.signature()],
    {
        broadcast use vstd::std_specs::btree::group_btree_axioms;
        let mut signatures: BTreeMap<u8, AccountOwnershipSignature> = BTreeMap::new();
        signatures.insert(SIGNING_KEY_INDEX, self.signature);
        assert(signatures@ =~= map![SIGNING_KEY_INDEX => self.signature]);
        signatures
    }
}

/// The data of an account, as the identity layer knows it: its keys and
/// threshold, and its on-chain address once it has been deployed.
pub struct AccountDataStruct {
    public_keys: Vec<VerifyKey>,
    threshold: SignatureThreshold,
    address: Option<AccountAddress>,
}

impl AccountDataStruct {
    /// The keys of the account, in their order.
    pub closed spec fn public_keys(&self) -> Seq<VerifyKey> {
        self.public_keys@
    }

    /// The signature threshold of the account.
    pub closed spec fn threshold(&self) -> SignatureThreshold {
        self.threshold
    }

    /// The address the account was deployed at, if it was.
    pub closed spec fn address(&self) -> Option<AccountAddress> {
        self.address
    }

    /// The threshold can always be met by the keys.
    #[verifier::type_invariant]
    spec fn wf(&self) -> bool {
        threshold_fits(self.threshold, self.public_keys@.len())
    }

    /// What identifies the account: its threshold while it is not yet
    /// deployed, its address after.
    pub open spec fn existing(&self) -> Either<SignatureThreshold, AccountAddress> {
        match self.address() {
            None => Either::Left(self.threshold()),
            Some(a) => Either::Right(a),
        }
    }

    /// Builds the data of an account not yet deployed, refusing a threshold
    /// that the keys cannot meet.
    pub fn new(public_keys: Vec<VerifyKey>, threshold: SignatureThreshold) -> (r: Result<Self, AccountDataError>)
        ensures
            r is Ok <==> threshold_fits(threshold, public_keys@.len()),
            r is Ok ==> r->Ok_0.public_keys() == public_keys@ && r->Ok_0.threshold() == threshold
                && r->Ok_0.address() is None,
            r is Err ==> Some(r->Err_0) == threshold_error(threshold, public_keys@.len()),
    {
        match check_threshold(threshold, public_keys.len()) {
            Ok(()) => Ok(AccountDataStruct { public_keys, threshold, address: None }),
            Err(e) => Err(e),
        }
    }

    /// Records the address at which the account was deployed.
    pub fn deploy(&mut self, address: AccountAddress)
        ensures
            final(self).address() == Some(address),
            final(self).public_keys() == old(self).public_keys(),
            final(self).threshold() == old(self).threshold(),
    {
        proof {
            use_type_invariant(&*self);
        }
        self.address = Some(address);
    }

    /// The number of signatures that authorize an action on the account:
    /// at least one, and no more than there are keys.
    pub fn get_threshold(&self) -> (r: SignatureThreshold)
        ensures
            r == self.threshold(),
            threshold_fits(r, self.public_keys().len()),
    {
        proof {
            use_type_invariant(self);
        }
        self.threshold
    }

    /// The threshold of an account not yet deployed, or the address of a
    /// deployed one.
    pub fn get_existing(&self) -> (r: Either<SignatureThreshold, AccountAddress>)
        ensures
            r == self.existing(),
    {
        match self.address {
            None => Either::Left(self.threshold),
            Some(a) => Either::Right(a),
        }
    }

    /// A copy of the keys, in their order.
    pub fn get_public_keys(&self) -> (r: Vec<VerifyKey>)
        ensures
            r@ == self.public_keys(),
    {
        copy_keys(&self.public_keys)
    }
}

/// Account data in any of its variants.
pub enum AccountData {
    /// An account to be created, not yet signed for.
    Initial(InitialAccountDataStruct),
    /// An account to be created, with the holder's ownership signature.
    InitialWithSignature(InitialAccountDataWithSignature),
    /// An account known to the identity layer, deployed or not.
    Existing(AccountDataStruct),
}

impl AccountData {
    /// The keys of the account, in their order.
    pub open spec fn public_keys(&self) -> Seq<VerifyKey> {
        match self {
            AccountData::Initial(d) => d.public_keys(),
            AccountData::InitialWithSignature(d) => d.public_keys(),
            AccountData::Existing(d) => d.public_keys(),
        }
    }

    /// The signature threshold of the account.
    pub open spec fn threshold(&self) -> SignatureThreshold {
        match self {
            AccountData::Initial(d) => d.threshold(),
            AccountData::InitialWithSignature(d) => d.threshold(),
            AccountData::Existing(d) => d.threshold(),
        }
    }

    /// The number of signatures that authorize an action on the account:
    /// at least one, and no more than there are keys.
    pub fn get_threshold(&self) -> (r: SignatureThreshold)
        ensures
            r == self.threshold(),
            threshold_fits(r, self.public_keys().len()),
    {
        match self {
            AccountData::Initial(d) => d.get_threshold(),
            AccountData::InitialWithSignature(d) => d.get_threshold(),
            AccountData::Existing(d) => d.get_threshold(),
        }
    }

    /// A copy of the keys, in their order.
    pub fn get_public_keys(&self) -> (r: Vec<VerifyKey>)
        ensures
            r@ == self.public_keys(),
    {
        match self {
            AccountData::Initial(d) => d.get_public_keys(),
            AccountData::InitialWithSignature(d) => d.get_public_keys(),
            AccountData::Existing(d) => d.get_public_keys(),
        }
    }
}

/// Two reads of an account's keys, as `get_public_keys` describes them, are
/// equal, and each holds the keys at the positions they were built at.
pub proof fn lemma_public_keys_stable(data: &AccountData, first: Seq<VerifyKey>, second: Seq<VerifyKey>)
    requires
        first == data.public_keys(),
        second == data.public_keys(),
    ensures
        first == second,
        first.len() == data.public_keys().len(),
        forall|i: int| 0 <= i < first.len() ==> #[trigger] first[i] == data.public_keys()[i],
{
}

/// Deploying an account turns what identifies it from its threshold into the
/// address it was deployed at; the account is never identified by both.
pub proof fn lemma_deploy_switches_existing(
    before: AccountDataStruct,
    after: AccountDataStruct,
    address: AccountAddress,
)
    requires
        before.address() is None,
        after.address() == Some(address),
        after.threshold() == before.threshold(),
    ensures
        before.existing() == Either::<SignatureThreshold, AccountAddress>::Left(before.threshold()),
        after.existing() == Either::<SignatureThreshold, AccountAddress>::Right(address),
        !(before.existing() is Right),
        !(after.existing() is Left),
{
}

} // verus!
