use account_data::account::{
    check_threshold, AccountData, AccountDataError, AccountDataStruct, InitialAccountDataStruct,
    InitialAccountDataWithSignature, SIGNING_KEY_INDEX,
};
use account_data::types::{
    AccountAddress, AccountOwnershipSignature, PublicInformationForIP, SignatureThreshold, VerifyKey,
};
use either::Either;

fn keys(n: u8) -> Vec<VerifyKey> {
    (0..n).map(|i| VerifyKey::Ed25519VerifyKey([i + 1; 32])).collect()
}

#[test]
fn public_keys_keep_their_order() {
    let ks = keys(3);
    let data = InitialAccountDataStruct::new(ks.clone(), SignatureThreshold(2)).unwrap();
    let first = data.get_public_keys();
    let second = data.get_public_keys();
    assert_eq!(first, ks);
    assert_eq!(first, second);
    assert_eq!(first[0], VerifyKey::Ed25519VerifyKey([1; 32]));
    assert_eq!(first[2], VerifyKey::Ed25519VerifyKey([3; 32]));
    assert_eq!(data.get_threshold(), SignatureThreshold(2));
}

#[test]
fn every_threshold_within_key_count_is_accepted() {
    for n in 1..=5u8 {
        for t in 1..=n {
            assert!(InitialAccountDataStruct::new(keys(n), SignatureThreshold(t)).is_ok());
            assert!(AccountDataStruct::new(keys(n), SignatureThreshold(t)).is_ok());
            assert_eq!(check_threshold(SignatureThreshold(t), n as usize), Ok(()));
        }
    }
}

#[test]
fn zero_threshold_is_rejected() {
    assert_eq!(
        InitialAccountDataStruct::new(keys(2), SignatureThreshold(0)).err(),
        Some(AccountDataError::ZeroThreshold)
    );
    assert_eq!(check_threshold(SignatureThreshold(0), 0), Err(AccountDataError::ZeroThreshold));
}

#[test]
fn threshold_above_key_count_is_rejected() {
    assert_eq!(
        AccountDataStruct::new(keys(2), SignatureThreshold(3)).err(),
        Some(AccountDataError::ThresholdExceedsKeys)
    );
    assert_eq!(
        InitialAccountDataStruct::new(Vec::new(), SignatureThreshold(1)).err(),
        Some(AccountDataError::ThresholdExceedsKeys)
    );
    assert_eq!(
        check_threshold(SignatureThreshold(255), 254),
        Err(AccountDataError::ThresholdExceedsKeys)
    );
    assert_eq!(check_threshold(SignatureThreshold(255), 255), Ok(()));
}

#[test]
fn signing_publishes_the_stored_signature_under_index_zero() {
    let sig = AccountOwnershipSignature([7; 64]);
    let data = InitialAccountDataWithSignature::new(sig, keys(3), SignatureThreshold(3)).unwrap();
    let empty = PublicInformationForIP { bytes: Vec::new() };
    let full = PublicInformationForIP { bytes: vec![1, 2, 3, 4] };
    let a = data.sign_public_information_for_ip(&empty);
    let b = data.sign_public_information_for_ip(&full);
    assert_eq!(a.len(), 1);
    assert_eq!(a.get(&0), Some(&sig));
    assert_eq!(SIGNING_KEY_INDEX, 0);
    assert_eq!(a, b);
    assert_eq!(data.get_public_keys(), keys(3));
    assert_eq!(data.get_threshold(), SignatureThreshold(3));
}

#[test]
fn deployment_switches_existing_from_threshold_to_address() {
    let mut data = AccountDataStruct::new(keys(2), SignatureThreshold(1)).unwrap();
    assert_eq!(data.get_existing(), Either::Left(SignatureThreshold(1)));
    let address = AccountAddress([9; 32]);
    data.deploy(address);
    assert_eq!(data.get_existing(), Either::Right(address));
    assert_eq!(data.get_public_keys(), keys(2));
    assert_eq!(data.get_threshold(), SignatureThreshold(1));
}

#[test]
fn variants_share_keys_and_threshold() {
    let sig = AccountOwnershipSignature([1; 64]);
    let all = vec![
        AccountData::Initial(InitialAccountDataStruct::new(keys(4), SignatureThreshold(2)).unwrap()),
        AccountData::InitialWithSignature(
            InitialAccountDataWithSignature::new(sig, keys(4), SignatureThreshold(2)).unwrap(),
        ),
        AccountData::Existing(AccountDataStruct::new(keys(4), SignatureThreshold(2)).unwrap()),
    ];
    for d in &all {
        assert_eq!(d.get_public_keys(), keys(4));
        assert_eq!(d.get_threshold(), SignatureThreshold(2));
    }
}
