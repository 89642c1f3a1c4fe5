use frame_support::traits::Get;
use relay_attestation::account::{AccountId, ACCOUNT_ID_BYTES};
use relay_attestation::bounds::{
    AccountLimit, AttestationLimit, SignatureLimit, MAX_ATTESTATIONS_PER_BLOCK, MAX_RELAYERS,
    MAX_SIGNATURE_BYTES,
};
use relay_attestation::deposit::{DepositData, DepositWithSignature};
use relay_attestation::error::Error;
use relay_attestation::pallet::Event;
use relay_attestation::registry::RelayerRegistry;
use relay_attestation::store::AttestationStore;

fn account(tag: u8) -> AccountId {
    AccountId::new([tag; 32])
}

fn data(asset_id: u128) -> DepositData {
    DepositData { asset_id, amount: 1, beneficiary: account(3) }
}

fn numbered(n: u8) -> DepositWithSignature {
    DepositWithSignature::new(data(n as u128), vec![n]).unwrap()
}

#[test]
fn every_limit_is_five() {
    assert_eq!(MAX_RELAYERS, 5);
    assert_eq!(MAX_SIGNATURE_BYTES, 5);
    assert_eq!(MAX_ATTESTATIONS_PER_BLOCK, 5);
    assert_eq!(<AccountLimit as Get<u32>>::get(), 5);
    assert_eq!(<SignatureLimit as Get<u32>>::get(), 5);
    assert_eq!(<AttestationLimit as Get<u32>>::get(), 5);
}

#[test]
fn account_ids_are_compared_by_their_bytes() {
    let mut bytes = [0u8; 32];
    bytes[0] = 1;
    assert_eq!(ACCOUNT_ID_BYTES, 32);
    assert_eq!(AccountId::new(bytes), AccountId::new(bytes));
    assert_eq!(AccountId::new(bytes).to_bytes(), bytes);
    assert_ne!(AccountId::new(bytes), AccountId::new([0u8; 32]));
    let mut last = [0u8; 32];
    last[31] = 1;
    assert_ne!(AccountId::new(last), AccountId::new([0u8; 32]));
    assert_ne!(AccountId::new(last), AccountId::new(bytes));
}

#[test]
fn deposit_data_is_compared_field_by_field() {
    let d = DepositData { asset_id: 7, amount: 100, beneficiary: account(1) };
    assert_eq!(d, DepositData { asset_id: 7, amount: 100, beneficiary: account(1) });
    assert_ne!(d, DepositData { asset_id: 8, amount: 100, beneficiary: account(1) });
    assert_ne!(d, DepositData { asset_id: 7, amount: 101, beneficiary: account(1) });
    assert_ne!(d, DepositData { asset_id: 7, amount: 100, beneficiary: account(2) });
    let big = DepositData { asset_id: u128::MAX, amount: u128::MAX, beneficiary: account(255) };
    assert_eq!(big.asset_id, u128::MAX);
    assert_eq!(big.amount, u128::MAX);
}

#[test]
fn a_signature_of_up_to_five_bytes_is_kept_as_it_came() {
    for signature in [vec![], vec![9], vec![1, 2, 3], vec![5, 4, 3, 2, 1]] {
        let made = DepositWithSignature::new(data(7), signature.clone()).unwrap();
        assert_eq!(made.signature(), &signature[..]);
        assert_eq!(*made.deposit_data(), data(7));
    }
}

#[test]
fn a_signature_of_six_bytes_is_too_large() {
    assert_eq!(
        DepositWithSignature::new(data(7), vec![1, 2, 3, 4, 5, 6]),
        Err(Error::PayloadTooLarge)
    );
    assert_eq!(DepositWithSignature::new(data(7), vec![0; 64]), Err(Error::PayloadTooLarge));
}

#[test]
fn attestations_are_alike_when_claim_and_signature_are() {
    let a = DepositWithSignature::new(data(7), vec![1, 2]).unwrap();
    assert_eq!(a, DepositWithSignature::new(data(7), vec![1, 2]).unwrap());
    assert_ne!(a, DepositWithSignature::new(data(8), vec![1, 2]).unwrap());
    assert_ne!(a, DepositWithSignature::new(data(7), vec![1, 3]).unwrap());
    assert_ne!(a, DepositWithSignature::new(data(7), vec![1]).unwrap());
    assert_ne!(a, DepositWithSignature::new(data(7), vec![1, 2, 0]).unwrap());
    assert_ne!(a, DepositWithSignature::new(data(7), vec![]).unwrap());
}

#[test]
fn a_cloned_attestation_is_like_the_one_it_came_from() {
    let a = DepositWithSignature::new(data(7), vec![1, 2, 3, 4, 5]).unwrap();
    let copy = a.clone();
    assert_eq!(copy, a);
    assert_eq!(copy.signature(), &[1, 2, 3, 4, 5][..]);
    assert_eq!(*copy.deposit_data(), data(7));
}

#[test]
fn registry_lists_its_relayers_in_order() {
    let registry = RelayerRegistry::new(vec![account(3), account(1), account(2)]).unwrap();
    assert_eq!(registry.current_relayers(), &[account(3), account(1), account(2)][..]);
    assert!(registry.contains(&account(1)));
    assert!(registry.contains(&account(2)));
    assert!(registry.contains(&account(3)));
    assert!(!registry.contains(&account(4)));
}

#[test]
fn registry_may_be_empty_or_full() {
    let empty = RelayerRegistry::new(vec![]).unwrap();
    assert_eq!(empty.current_relayers().len(), 0);
    assert!(!empty.contains(&account(0)));

    let five: Vec<AccountId> = (1..=5u8).map(account).collect();
    let full = RelayerRegistry::new(five.clone()).unwrap();
    assert_eq!(full.current_relayers(), &five[..]);
    assert!(full.contains(&account(5)));
}

#[test]
fn registry_of_six_is_over_capacity() {
    let six: Vec<AccountId> = (1..=6u8).map(account).collect();
    assert!(matches!(RelayerRegistry::new(six), Err(Error::CapacityExceeded)));
}

#[test]
fn an_unwritten_height_reads_as_empty() {
    let store = AttestationStore::new();
    assert_eq!(store.get(0).len(), 0);
    assert_eq!(store.get(10).len(), 0);
    assert_eq!(store.get(u64::MAX).len(), 0);
}

#[test]
fn put_replaces_the_whole_list() {
    let mut store = AttestationStore::new();
    assert_eq!(store.put(10, vec![numbered(1), numbered(2)]), Ok(()));
    assert_eq!(store.get(10), &[numbered(1), numbered(2)][..]);

    assert_eq!(store.put(10, vec![numbered(3)]), Ok(()));
    assert_eq!(store.get(10), &[numbered(3)][..]);

    assert_eq!(store.put(10, vec![]), Ok(()));
    assert_eq!(store.get(10).len(), 0);
}

#[test]
fn put_at_one_height_leaves_the_others() {
    let mut store = AttestationStore::new();
    assert_eq!(store.put(1, vec![numbered(1)]), Ok(()));
    assert_eq!(store.put(2, vec![numbered(2), numbered(3)]), Ok(()));
    assert_eq!(store.get(1), &[numbered(1)][..]);
    assert_eq!(store.get(2), &[numbered(2), numbered(3)][..]);
    assert_eq!(store.get(3).len(), 0);
}

#[test]
fn put_of_a_full_list_is_accepted() {
    let mut store = AttestationStore::new();
    let five: Vec<DepositWithSignature> = (1..=5u8).map(numbered).collect();
    assert_eq!(store.put(8, five.clone()), Ok(()));
    assert_eq!(store.get(8), &five[..]);
}

#[test]
fn put_over_capacity_is_rejected_and_changes_nothing() {
    let mut store = AttestationStore::new();
    assert_eq!(store.put(8, vec![numbered(1)]), Ok(()));
    let six: Vec<DepositWithSignature> = (1..=6u8).map(numbered).collect();
    assert_eq!(store.put(8, six.clone()), Err(Error::CapacityExceeded));
    assert_eq!(store.get(8), &[numbered(1)][..]);
    assert_eq!(store.put(9, six), Err(Error::CapacityExceeded));
    assert_eq!(store.get(9).len(), 0);
}

#[test]
fn errors_are_told_apart() {
    assert_ne!(Error::Unauthorized, Error::CapacityExceeded);
    assert_ne!(Error::CapacityExceeded, Error::PayloadTooLarge);
    assert_ne!(Error::Unauthorized, Error::PayloadTooLarge);
}

#[test]
fn an_event_carries_what_it_was_made_with() {
    let event = Event::SomethingStored { something: 42, who: account(1) };
    assert_eq!(event, Event::SomethingStored { something: 42, who: account(1) });
    assert_ne!(event, Event::SomethingStored { something: 43, who: account(1) });
    assert_ne!(event, Event::SomethingStored { something: 42, who: account(2) });
}
