use frame_support::pallet_prelude::Encode;
use pallet_kitties::kitty::encode_payload;
use pallet_kitties::{
    AccountId, Balances, Config, Currency, DispatchError, Error, Event, ExistenceRequirement,
    Kitty, KittyId, KittyV1, LedgerError, OldKitty, Pallet, Seed,
};
use sp_runtime::traits::AccountIdConversion;

const ED: u128 = 500;
const PRICE: u128 = 5000;
const PALLET_ID: [u8; 8] = *b"py/kitty";
const SEED: Seed = [9u8; 32];
const A: AccountId = 1;
const B: AccountId = 2;

fn setup(storage_version: u16, on_chain_version: u16) -> (Pallet, Balances) {
    let pallet = Pallet::new(
        Config { kitty_price: PRICE, pallet_id: PALLET_ID, storage_version },
        on_chain_version,
    );
    let mut ledger = Balances::new(ED);
    ledger.set_balance(A, 100_000);
    ledger.set_balance(B, 100_000);
    (pallet, ledger)
}

fn create(p: &mut Pallet, l: &mut Balances, who: AccountId, name: [u8; 4]) -> Result<(), DispatchError> {
    p.create(l, who, name, &SEED, Some(0))
}

fn err(e: Error) -> Result<(), DispatchError> {
    Err(DispatchError::Module(e))
}

#[test]
fn create_takes_counter_and_advances_it() {
    let (mut p, mut l) = setup(1, 1);
    for expected in 0..3u32 {
        assert_eq!(p.next_kitty_id(), expected);
        assert_eq!(create(&mut p, &mut l, A, [1, 2, 3, 4]), Ok(()));
        assert_eq!(p.next_kitty_id(), expected + 1);
        match p.last_event() {
            Some(Event::KittyCreated { kitty_id, .. }) => assert_eq!(kitty_id, expected),
            other => panic!("unexpected event {:?}", other),
        }
    }
}

#[test]
fn exhausted_counter_refuses_create_and_breed() {
    let (mut p, mut l) = setup(1, 1);
    assert_eq!(create(&mut p, &mut l, A, [0; 4]), Ok(()));
    assert_eq!(create(&mut p, &mut l, A, [0; 4]), Ok(()));
    p.set_next_kitty_id(u32::MAX);
    let balance = l.free_balance(A);
    assert_eq!(create(&mut p, &mut l, A, [0; 4]), err(Error::InvalidKittyId));
    assert_eq!(p.breed(&mut l, A, 0, 1, [0; 4]), err(Error::InvalidKittyId));
    assert_eq!(p.next_kitty_id(), u32::MAX);
    assert_eq!(p.kitties(u32::MAX), None);
    assert_eq!(p.kitty_owner(u32::MAX), None);
    assert_eq!(p.kitty_owner(0), Some(A));
    assert_eq!(l.free_balance(A), balance);
}

#[test]
fn the_last_identifier_below_the_maximum_is_still_given() {
    let (mut p, mut l) = setup(1, 1);
    p.set_next_kitty_id(u32::MAX - 1);
    assert_eq!(create(&mut p, &mut l, A, [0; 4]), Ok(()));
    assert_eq!(p.kitty_owner(u32::MAX - 1), Some(A));
    assert_eq!(p.next_kitty_id(), u32::MAX);
    assert_eq!(create(&mut p, &mut l, A, [0; 4]), err(Error::InvalidKittyId));
}

#[test]
fn record_and_owner_come_together() {
    let (mut p, mut l) = setup(1, 1);
    assert_eq!(p.kitties(0), None);
    assert_eq!(p.kitty_owner(0), None);
    assert_eq!(create(&mut p, &mut l, A, [0; 4]), Ok(()));
    assert_eq!(create(&mut p, &mut l, A, [1; 4]), Ok(()));
    assert_eq!(p.breed(&mut l, B, 0, 1, [3; 4]), Ok(()));
    for id in 0..3u32 {
        assert!(p.kitties(id).is_some());
        assert!(p.kitty_owner(id).is_some());
    }
    assert_eq!(p.kitty_owner(2), Some(B));
    assert_eq!(p.kitties(3), None);
    assert_eq!(p.kitty_owner(3), None);
}

#[test]
fn breeding_with_itself_consumes_no_identifier() {
    let (mut p, mut l) = setup(1, 1);
    assert_eq!(create(&mut p, &mut l, A, [0; 4]), Ok(()));
    let balance = l.free_balance(A);
    assert_eq!(p.breed(&mut l, A, 0, 0, [0; 4]), err(Error::SameKittyId));
    assert_eq!(p.breed(&mut l, A, 7, 7, [0; 4]), err(Error::SameKittyId));
    assert_eq!(p.next_kitty_id(), 1);
    assert_eq!(l.free_balance(A), balance);
}

#[test]
fn bred_record_has_zero_code_and_lineage() {
    let (mut p, mut l) = setup(1, 1);
    assert_eq!(create(&mut p, &mut l, A, [0; 4]), Ok(()));
    assert_eq!(create(&mut p, &mut l, B, [1; 4]), Ok(()));
    assert_eq!(p.breed(&mut l, A, 1, 0, [5, 6, 7, 8]), Ok(()));
    let kitty = Kitty { dna: [0; 16], name: [5, 6, 7, 8] };
    assert_eq!(p.kitties(2), Some(kitty));
    assert_eq!(p.kitty_parents(2), Some((1, 0)));
    assert_eq!(p.last_event(), Some(Event::KittyBred { who: A, kitty_id: 2, kitty }));
}

#[test]
fn breeding_from_a_missing_parent_consumes_no_identifier() {
    let (mut p, mut l) = setup(1, 1);
    assert_eq!(p.breed(&mut l, A, 0, 1, [0; 4]), err(Error::InvalidKittyId));
    assert_eq!(create(&mut p, &mut l, A, [0; 4]), Ok(()));
    let balance = l.free_balance(A);
    assert_eq!(p.breed(&mut l, A, 0, 1, [0; 4]), err(Error::InvalidKittyId));
    assert_eq!(p.breed(&mut l, A, 1, 0, [0; 4]), err(Error::InvalidKittyId));
    assert_eq!(p.next_kitty_id(), 1);
    assert_eq!(p.kitties(1), None);
    assert_eq!(l.free_balance(A), balance);
    assert_eq!(p.last_event(), Some(Event::KittyCreated { who: A, kitty_id: 0, kitty: p.kitties(0).unwrap() }));
}

#[test]
fn transfer_by_owner_and_by_others() {
    let (mut p, mut l) = setup(1, 1);
    assert_eq!(p.transfer(A, B, 0), err(Error::InvalidKittyId));
    assert_eq!(create(&mut p, &mut l, A, [0; 4]), Ok(()));
    assert_eq!(p.transfer(B, B, 0), err(Error::NotOwner));
    assert_eq!(p.kitty_owner(0), Some(A));
    assert_eq!(p.transfer(A, B, 0), Ok(()));
    assert_eq!(p.kitty_owner(0), Some(B));
    assert_eq!(p.transfer(A, A, 0), err(Error::NotOwner));
    assert_eq!(p.kitty_owner(0), Some(B));
}

#[test]
fn transfer_keeps_the_sale_marker() {
    let (mut p, mut l) = setup(1, 1);
    assert_eq!(create(&mut p, &mut l, A, [0; 4]), Ok(()));
    assert_eq!(p.sale(A, 0), Ok(()));
    assert_eq!(p.transfer(A, B, 0), Ok(()));
    assert_eq!(p.kitty_on_sale(0), Some(()));
}

#[test]
fn listing_twice_and_by_others() {
    let (mut p, mut l) = setup(1, 1);
    assert_eq!(p.sale(A, 0), err(Error::InvalidKittyId));
    assert_eq!(create(&mut p, &mut l, A, [0; 4]), Ok(()));
    assert_eq!(p.sale(B, 0), err(Error::NotOwner));
    assert_eq!(p.kitty_on_sale(0), None);
    assert_eq!(p.sale(A, 0), Ok(()));
    assert_eq!(p.kitty_on_sale(0), Some(()));
    assert_eq!(p.sale(A, 0), err(Error::AlreadyOnSale));
}

#[test]
fn buy_moves_exactly_the_price() {
    let (mut p, mut l) = setup(1, 1);
    assert_eq!(create(&mut p, &mut l, A, [0; 4]), Ok(()));
    assert_eq!(p.buy(&mut l, B, 0), err(Error::NotOnSale));
    assert_eq!(p.sale(A, 0), Ok(()));
    let (seller, buyer) = (l.free_balance(A), l.free_balance(B));
    assert_eq!(p.buy(&mut l, B, 0), Ok(()));
    assert_eq!(p.kitty_owner(0), Some(B));
    assert_eq!(p.kitty_on_sale(0), None);
    assert_eq!(l.free_balance(A), seller + PRICE);
    assert_eq!(l.free_balance(B), buyer - PRICE);
    assert_eq!(p.last_event(), Some(Event::KittyBought { who: B, current_owner: A, kitty_id: 0 }));
}

#[test]
fn buy_fails_whole_when_the_buyer_cannot_pay() {
    let (mut p, mut l) = setup(1, 1);
    assert_eq!(create(&mut p, &mut l, A, [0; 4]), Ok(()));
    assert_eq!(p.sale(A, 0), Ok(()));
    l.set_balance(B, PRICE);
    assert_eq!(p.buy(&mut l, B, 0), Err(DispatchError::Ledger(LedgerError::Expendability)));
    assert_eq!(p.kitty_owner(0), Some(A));
    assert_eq!(p.kitty_on_sale(0), Some(()));
    assert_eq!(l.free_balance(B), PRICE);
    l.set_balance(B, PRICE - 1);
    assert_eq!(p.buy(&mut l, B, 0), Err(DispatchError::Ledger(LedgerError::InsufficientBalance)));
    assert_eq!(p.kitty_owner(0), Some(A));
}

#[test]
fn create_fails_whole_without_funds() {
    let (mut p, mut l) = setup(1, 1);
    let poor: AccountId = 3;
    assert_eq!(
        create(&mut p, &mut l, poor, [0; 4]),
        Err(DispatchError::Ledger(LedgerError::InsufficientBalance))
    );
    assert_eq!(p.next_kitty_id(), 0);
    assert_eq!(p.kitties(0), None);
    assert_eq!(p.kitty_owner(0), None);
    assert_eq!(p.last_event(), None);
}

#[test]
fn creation_fee_goes_to_the_treasury() {
    let (mut p, mut l) = setup(1, 1);
    let treasury: AccountId = frame_support::PalletId(PALLET_ID).into_account_truncating();
    assert_eq!(p.get_account_id(), treasury);
    assert_eq!(treasury, u64::from_le_bytes(*b"modlpy/k"));
    assert_ne!(u64::from_le_bytes(PALLET_ID), treasury);
    assert_eq!(create(&mut p, &mut l, A, [0; 4]), Ok(()));
    assert_eq!(create(&mut p, &mut l, A, [1; 4]), Ok(()));
    assert_eq!(p.breed(&mut l, A, 0, 1, [0; 4]), Ok(()));
    assert_eq!(l.free_balance(treasury), 3 * PRICE);
    assert_eq!(l.free_balance(A), 100_000 - 3 * PRICE);
}

#[test]
fn genetic_code_is_the_digest_of_the_payload() {
    let (mut p, mut l) = setup(1, 1);
    let index = Some(3u32);
    assert_eq!(p.create(&mut l, A, *b"kitt", &SEED, index), Ok(()));
    let payload = (SEED, A, index).encode();
    assert_eq!(encode_payload(&SEED, A, index), payload);
    let digest = sp_io::hashing::blake2_128(&payload);
    assert_eq!(p.kitties(0), Some(Kitty { dna: digest, name: *b"kitt" }));
    assert_ne!(&digest[..], &payload[..16]);
}

#[test]
fn payload_encoding_matches_the_codec() {
    for (who, index) in [(0u64, None), (u64::MAX, Some(u32::MAX)), (0x0102_0304_0506_0708, Some(258))] {
        assert_eq!(encode_payload(&SEED, who, index), (SEED, who, index).encode());
    }
}

#[test]
fn same_caller_in_another_position_gets_another_code() {
    let (mut p, mut l) = setup(1, 1);
    assert_eq!(p.create(&mut l, A, [0; 4], &SEED, Some(0)), Ok(()));
    assert_eq!(p.create(&mut l, A, [0; 4], &SEED, Some(1)), Ok(()));
    assert_eq!(p.create(&mut l, B, [0; 4], &SEED, Some(0)), Ok(()));
    let codes: Vec<[u8; 16]> = (0..3).map(|id| p.kitties(id).unwrap().dna).collect();
    assert_ne!(codes[0], codes[1]);
    assert_ne!(codes[0], codes[2]);
}

#[test]
fn end_to_end_breed_transfer_list_buy_back() {
    let (mut p, mut l) = setup(1, 1);
    let (a0, b0) = (l.free_balance(A), l.free_balance(B));
    assert_eq!(create(&mut p, &mut l, A, [0; 4]), Ok(()));
    assert_eq!(create(&mut p, &mut l, A, [1; 4]), Ok(()));
    assert_eq!(p.breed(&mut l, A, 0, 1, [2; 4]), Ok(()));
    assert_eq!(p.kitty_parents(2), Some((0, 1)));
    assert_eq!(p.transfer(A, B, 2), Ok(()));
    assert_eq!(p.sale(B, 2), Ok(()));
    let (a1, b1) = (l.free_balance(A), l.free_balance(B));
    assert_eq!(a1, a0 - 3 * PRICE);
    assert_eq!(b1, b0);
    assert_eq!(p.buy(&mut l, A, 2), Ok(()));
    assert_eq!(p.kitty_owner(2), Some(A));
    assert_eq!(p.kitty_on_sale(2), None);
    assert_eq!(l.free_balance(A), a1 - PRICE);
    assert_eq!(l.free_balance(B), b1 + PRICE);
}

#[test]
fn upgrade_to_version_one_names_records_once() {
    let (mut p, mut l) = setup(1, 0);
    assert_eq!(create(&mut p, &mut l, A, [1, 2, 3, 4]), Ok(()));
    assert_eq!(create(&mut p, &mut l, B, [4, 3, 2, 1]), Ok(()));
    assert_eq!(p.breed(&mut l, A, 0, 1, [5, 6, 7, 8]), Ok(()));
    let dna0 = p.kitties(0).unwrap().dna;
    assert_eq!(p.on_runtime_upgrade(), 3);
    assert_eq!(p.on_chain_storage_version(), 1);
    assert_eq!(p.kitties(0), Some(Kitty { dna: dna0, name: *b"abcd" }));
    assert_eq!(p.kitties(2), Some(Kitty { dna: [0; 16], name: *b"abcd" }));
    assert_eq!(p.on_runtime_upgrade(), 0);
    assert_eq!(p.on_chain_storage_version(), 1);
    assert_eq!(p.kitties(0), Some(Kitty { dna: dna0, name: *b"abcd" }));
    assert_eq!(p.kitty_owner(1), Some(B));
    assert_eq!(p.kitty_parents(2), Some((0, 1)));
}

#[test]
fn upgrade_without_due_step_changes_nothing() {
    let (mut p, mut l) = setup(1, 1);
    assert_eq!(create(&mut p, &mut l, A, [1, 2, 3, 4]), Ok(()));
    assert_eq!(p.on_runtime_upgrade(), 0);
    assert_eq!(p.kitties(0).unwrap().name, [1, 2, 3, 4]);
    assert_eq!(pallet_kitties::migrations::v1::migrate(&mut p), 0);
    assert_eq!(pallet_kitties::migrations::v2::migrate(&mut p), 0);
    assert_eq!(p.kitties(0).unwrap().name, [1, 2, 3, 4]);
}

#[test]
fn upgrade_to_version_two_widens_names_once() {
    let (mut p, mut l) = setup(2, 1);
    assert_eq!(create(&mut p, &mut l, A, [0; 4]), Ok(()));
    assert_eq!(create(&mut p, &mut l, A, [0; 4]), Ok(()));
    assert_eq!(p.breed(&mut l, A, 0, 1, [1, 2, 3, 255]), Ok(()));
    assert_eq!(pallet_kitties::migrations::v2::migrate(&mut p), 3);
    assert_eq!(p.on_chain_storage_version(), 2);
    let widened = KittyV1 { dna: [0; 16], name: [2, 3, 4, 0, 2, 3, 4, 0] };
    assert_eq!(pallet_kitties::migrations::v2::upgrade_record(&Kitty { dna: [0; 16], name: [1, 2, 3, 255] }.encode()), Some(widened.encode()));
    assert_eq!(p.kitties(2), Some(Kitty { dna: [0; 16], name: [2, 3, 4, 0] }));
    assert_eq!(pallet_kitties::migrations::v2::migrate(&mut p), 0);
    assert_eq!(p.kitties(2), Some(Kitty { dna: [0; 16], name: [2, 3, 4, 0] }));
}

#[test]
fn upgrade_runs_both_steps_in_order() {
    let (mut p, mut l) = setup(2, 0);
    assert_eq!(create(&mut p, &mut l, A, [9; 4]), Ok(()));
    assert_eq!(p.on_runtime_upgrade(), 2);
    assert_eq!(p.on_chain_storage_version(), 2);
    assert_eq!(p.kitties(0).unwrap().name, *b"bcde");
    assert_eq!(p.on_runtime_upgrade(), 0);
    assert_eq!(p.kitties(0).unwrap().name, *b"bcde");
}

#[test]
fn layouts_decode_and_encode() {
    let bytes: Vec<u8> = (0..20u8).collect();
    let kitty = Kitty::decode(&bytes).unwrap();
    assert_eq!(kitty.dna, core::array::from_fn::<u8, 16, _>(|i| i as u8));
    assert_eq!(kitty.name, [16, 17, 18, 19]);
    assert_eq!(kitty.encode(), bytes);
    assert_eq!(Kitty::decode(&bytes[..19]), None);
    assert_eq!(OldKitty::decode(&bytes[..16]), Some(OldKitty(kitty.dna)));
    assert_eq!(OldKitty::decode(&bytes[..15]), None);
    assert_eq!(pallet_kitties::migrations::v1::upgrade_record(&bytes[..15]), None);
    let mut expected = bytes[..16].to_vec();
    expected.extend_from_slice(b"abcd");
    assert_eq!(pallet_kitties::migrations::v1::upgrade_record(&bytes[..16]), Some(expected));
}

#[test]
fn ledger_transfer_rules() {
    let mut l = Balances::new(ED);
    l.set_balance(A, 1000);
    l.set_balance(B, u128::MAX - 10);
    assert_eq!(l.transfer(A, B, 1001, ExistenceRequirement::AllowDeath), Err(LedgerError::InsufficientBalance));
    assert_eq!(l.transfer(A, B, 501, ExistenceRequirement::KeepAlive), Err(LedgerError::Expendability));
    assert_eq!(l.transfer(A, B, 11, ExistenceRequirement::KeepAlive), Err(LedgerError::Overflow));
    assert_eq!(l.transfer(A, 3, 501, ExistenceRequirement::AllowDeath), Ok(()));
    assert_eq!(l.free_balance(A), 499);
    assert_eq!(l.free_balance(3), 501);
    assert_eq!(l.transfer(A, A, 499, ExistenceRequirement::KeepAlive), Err(LedgerError::Expendability));
    assert_eq!(l.transfer(A, A, 10, ExistenceRequirement::AllowDeath), Ok(()));
    assert_eq!(l.free_balance(A), 499);
}

#[test]
fn buying_an_entity_without_owner_entry_is_impossible() {
    let (mut p, mut l) = setup(1, 1);
    assert_eq!(create(&mut p, &mut l, A, [0; 4]), Ok(()));
    assert_eq!(p.buy(&mut l, A, 5), err(Error::InvalidKittyId));
    let _: KittyId = p.next_kitty_id();
}
