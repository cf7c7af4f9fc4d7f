//! Edge cases and the stated behaviour: the per-byte crossover law, seed
//! derivation, the owner-record invariant, each error kind, the strict
//! purchase boundary, and the end-to-end scenario.

use kitties::bank::Bank;
use kitties::genetics::{combine, random_value};
use kitties::pallet::{Config, Error, Event, Pallet};

fn new_test_ext() -> (Pallet, Bank) {
    let mut bank = Bank::new(1);
    bank.endow(0, 100);
    bank.endow(1, 100);
    bank.endow(2, 100);
    let pallet = Pallet::new(Config { reserve_value: 1 });
    (pallet, bank)
}

fn entropy() -> Vec<u8> {
    vec![7u8, 13, 42, 99]
}

#[test]
fn combine_per_byte_law() {
    let a = [0xAAu8; 16];
    let b = [0x55u8; 16];
    let mask = [0xF0u8; 16];
    let out = combine(&a, &b, &mask);
    for i in 0..16 {
        assert_eq!(out[i], (mask[i] & a[i]) | (!mask[i] & b[i]));
        assert_eq!(out[i], 0xA5);
    }
    assert_eq!(combine(&a, &b, &[0xFFu8; 16]), a);
    assert_eq!(combine(&a, &b, &[0x00u8; 16]), b);
    // deterministic: the same inputs give the same output
    assert_eq!(combine(&a, &b, &mask), out);
}

#[test]
fn seed_derivation_depends_on_every_input() {
    let e = vec![5u8; 16];
    let s1 = random_value(0, &e, 0);
    // reproducible for identical inputs
    assert_eq!(random_value(0, &e, 0), s1);
    // the digest is not the entropy handed back
    assert_ne!(s1, [5u8; 16]);
    // the actor and the sequence number both enter the payload
    assert_ne!(random_value(1, &e, 0), s1);
    assert_ne!(random_value(0, &e, 1), s1);
}

#[test]
fn bred_dna_follows_crossover_of_parents() {
    let (mut p, mut b) = new_test_ext();
    assert_eq!(p.create_kitty(&mut b, 1, &entropy(), 0), Ok(()));
    assert_eq!(p.create_kitty(&mut b, 1, &entropy(), 1), Ok(()));
    assert_eq!(p.breed_kitty(1, 0, 1, &entropy(), 2), Ok(()));
    let dna1 = p.kitties(0).unwrap().0;
    let dna2 = p.kitties(1).unwrap().0;
    let mask = random_value(1, &entropy(), 2);
    let child = p.kitties(2).unwrap().0;
    for i in 0..16 {
        assert_eq!(child[i], (mask[i] & dna1[i]) | (!mask[i] & dna2[i]));
    }
}

#[test]
fn owner_record_exists_iff_id_below_counter() {
    let (mut p, mut b) = new_test_ext();
    assert_eq!(p.owner(0), None);
    assert_eq!(p.create_kitty(&mut b, 0, &entropy(), 0), Ok(()));
    assert_eq!(p.create_kitty(&mut b, 1, &entropy(), 1), Ok(()));
    assert_eq!(p.kitties_count(), Some(2));
    assert!(p.owner(0).is_some());
    assert!(p.owner(1).is_some());
    assert_eq!(p.owner(2), None);
    assert!(p.kitties(2).is_none());
    assert!(p.kitties(0).is_some());
}

#[test]
fn create_fails_insufficient_funds_without_mutation() {
    let (mut p, mut b) = new_test_ext();
    b.endow(9, 0);
    assert_eq!(p.create_kitty(&mut b, 9, &entropy(), 0), Err(Error::InsufficientFunds));
    assert_eq!(p.kitties_count(), None);
    assert_eq!(b.free_balance(9), 0);
    assert_eq!(b.reserved_balance(9), 0);
}

#[test]
fn transfer_fails_insufficient_funds_without_mutation() {
    let (mut p, mut b) = new_test_ext();
    b.endow(9, 0);
    assert_eq!(p.create_kitty(&mut b, 0, &entropy(), 0), Ok(()));
    assert_eq!(p.transfer(&mut b, 0, 9, 0), Err(Error::InsufficientFunds));
    assert_eq!(p.owner(0), Some(0));
    assert_eq!(b.reserved_balance(0), 1);
}

#[test]
fn create_fails_when_identifiers_are_exhausted() {
    let (_, mut b) = new_test_ext();
    let mut p = Pallet {
        counter: Some(u32::MAX),
        kitties: Vec::new(),
        owners: Vec::new(),
        listings: Vec::new(),
        events: Vec::new(),
        config: Config { reserve_value: 1 },
    };
    assert_eq!(p.create_kitty(&mut b, 0, &entropy(), 0), Err(Error::IdentifierOverflow));
    assert_eq!(b.free_balance(0), 100);
    assert_eq!(b.reserved_balance(0), 0);
}

#[test]
fn purchase_unlisted_fails_not_listed() {
    let (mut p, mut b) = new_test_ext();
    assert_eq!(p.create_kitty(&mut b, 0, &entropy(), 0), Ok(()));
    assert_eq!(p.buy_kitties(&mut b, 1, 0), Err(Error::NotListed));
    assert_eq!(p.buy_kitties(&mut b, 1, 5), Err(Error::NotListed));
}

#[test]
fn purchase_boundary_is_strict_and_moves_exactly_the_price() {
    let (mut p, mut b) = new_test_ext();
    assert_eq!(p.create_kitty(&mut b, 1, &entropy(), 0), Ok(()));
    assert_eq!(p.sell_kitties(1, 0, 100), Ok(()));

    // free balance equal to the price is not strictly greater: refused,
    // and the listing remains
    assert_eq!(p.buy_kitties(&mut b, 2, 0), Err(Error::InsufficientFunds));
    assert_eq!(p.kitties_tx_pool(0), 100);
    assert_eq!(p.owner(0), Some(1));
    assert_eq!(b.free_balance(2), 100);

    b.endow(3, 101);
    assert_eq!(p.buy_kitties(&mut b, 3, 0), Ok(()));
    assert_eq!(p.kitties_tx_pool(0), 0);
    assert_eq!(p.owner(0), Some(3));
    // exactly the price left the buyer
    assert_eq!(b.free_balance(3), 1);
    // the seller got the price plus the released reservation back
    assert_eq!(b.free_balance(1), 200);
    assert_eq!(b.reserved_balance(1), 0);
    // the buyer holds no new reservation
    assert_eq!(b.reserved_balance(3), 0);
}

#[test]
fn events_are_emitted_in_order() {
    let (mut p, mut b) = new_test_ext();
    assert_eq!(p.create_kitty(&mut b, 0, &entropy(), 0), Ok(()));
    assert_eq!(p.transfer(&mut b, 0, 1, 0), Ok(()));
    assert_eq!(p.sell_kitties(1, 0, 4), Ok(()));
    assert_eq!(p.buy_kitties(&mut b, 2, 0), Ok(()));
    let log = p.event_log();
    assert_eq!(log.len(), 4);
    assert_eq!(log[0], Event::Created { account: 0, id: 0 });
    assert_eq!(log[1], Event::Transferred { from: 0, to: 1, id: 0 });
    assert_eq!(log[2], Event::Listed { account: 1, id: 0 });
    assert_eq!(log[3], Event::Purchased { account: 2, id: 0 });
}

#[test]
fn end_to_end_scenario() {
    let (mut p, mut b) = new_test_ext();

    // account 0 starts with free balance 100 and a reservation amount of 1
    assert_eq!(p.create_kitty(&mut b, 0, &entropy(), 0), Ok(()));
    assert_eq!(b.free_balance(0), 99);
    assert_eq!(p.owner(0), Some(0));
    assert_eq!(p.kitties_count(), Some(1));

    // account 1 creates two assets
    assert_eq!(p.create_kitty(&mut b, 1, &entropy(), 1), Ok(()));
    assert_eq!(p.create_kitty(&mut b, 1, &entropy(), 2), Ok(()));
    assert_eq!(p.kitties_count(), Some(3));

    // breeding with identical parents always fails
    assert_eq!(p.breed_kitty(1, 1, 1, &entropy(), 3), Err(Error::SameParent));
    // breeding with an id not yet created fails
    assert_eq!(p.breed_kitty(1, 1, 3, &entropy(), 4), Err(Error::InvalidIndex));
    // breeding two existing assets produces the next id, owned by the caller
    assert_eq!(p.breed_kitty(1, 1, 2, &entropy(), 5), Ok(()));
    assert_eq!(p.owner(3), Some(1));
    assert_eq!(p.kitties_count(), Some(4));

    // account 1 lists one asset far above account 2's means, one within them
    assert_eq!(p.sell_kitties(1, 1, 1000), Ok(()));
    assert_eq!(p.sell_kitties(1, 2, 1), Ok(()));

    // 100 is not strictly greater than 1000
    assert_eq!(p.buy_kitties(&mut b, 2, 1), Err(Error::InsufficientFunds));
    // the affordable purchase succeeds and moves exactly one unit
    assert_eq!(p.buy_kitties(&mut b, 2, 2), Ok(()));
    assert_eq!(p.owner(2), Some(2));
    assert_eq!(b.free_balance(2), 99);
    assert_eq!(b.free_balance(1), 100);
}
