use kitties::{allocate, generate, Error, Event, Kitty, KittyGender, Ledger};

const SEED: [u8; 32] = [7; 32];
const ALICE: u64 = 1;
const BOB: u64 = 2;

// BLAKE2b-128 of the seed, the caller (8 bytes, little-endian) and the
// SCALE-encoded call index, computed independently.
const DNA_ALICE_0: [u8; 16] = [92, 217, 45, 227, 171, 197, 252, 235, 94, 0, 212, 42, 24, 250, 17, 191];
const DNA_ALICE_1: [u8; 16] = [22, 185, 33, 19, 177, 23, 144, 146, 118, 220, 196, 37, 97, 89, 234, 205];
const DNA_BOB_0: [u8; 16] = [243, 223, 146, 219, 25, 191, 175, 20, 131, 133, 150, 11, 228, 228, 217, 18];
const DNA_ZERO_SEED_BOB_NONE: [u8; 16] = [94, 203, 227, 59, 39, 59, 13, 117, 71, 134, 180, 35, 102, 126, 26, 39];

#[test]
fn gender_follows_parity_of_first_byte() {
    for b in 0..=255u8 {
        let mut dna = [0u8; 16];
        dna[0] = b;
        let expected = if b % 2 == 0 { KittyGender::Male } else { KittyGender::Female };
        assert_eq!(Kitty(dna).gender(), expected);
    }
}

#[test]
fn gender_ignores_other_bytes() {
    assert_eq!(Kitty([2, 1, 1, 1, 1, 1, 1, 1, 1, 1, 1, 1, 1, 1, 1, 1]).gender(), KittyGender::Male);
    assert_eq!(Kitty([255, 0, 0, 0, 0, 0, 0, 0, 0, 0, 0, 0, 0, 0, 0, 0]).gender(), KittyGender::Female);
}

#[test]
fn allocate_hands_out_counter_and_advances() {
    let mut next = 5u32;
    assert_eq!(allocate(&mut next), Ok(5));
    assert_eq!(next, 6);
}

#[test]
fn allocate_overflow_leaves_counter() {
    let mut next = u32::MAX;
    assert_eq!(allocate(&mut next), Err(Error::KittiesIdOverflow));
    assert_eq!(next, u32::MAX);
}

#[test]
fn allocate_last_identifier() {
    let mut next = u32::MAX - 1;
    assert_eq!(allocate(&mut next), Ok(u32::MAX - 1));
    assert_eq!(next, u32::MAX);
}

#[test]
fn generate_hashes_encoded_sources() {
    assert_eq!(generate(&SEED, ALICE, Some(0)), Kitty(DNA_ALICE_0));
    assert_eq!(generate(&SEED, ALICE, Some(1)), Kitty(DNA_ALICE_1));
    assert_eq!(generate(&SEED, BOB, Some(0)), Kitty(DNA_BOB_0));
    assert_eq!(generate(&[0; 32], BOB, None), Kitty(DNA_ZERO_SEED_BOB_NONE));
}

#[test]
fn generate_is_deterministic() {
    let a = generate(&SEED, ALICE, Some(3));
    let b = generate(&SEED, ALICE, Some(3));
    assert_eq!(a, b);
}

#[test]
fn generate_depends_on_each_source() {
    let base = generate(&SEED, ALICE, Some(0));
    assert_ne!(base, generate(&[8; 32], ALICE, Some(0)));
    assert_ne!(base, generate(&SEED, BOB, Some(0)));
    assert_ne!(base, generate(&SEED, ALICE, Some(1)));
    assert_ne!(base, generate(&SEED, ALICE, None));
}

#[test]
fn new_ledger_is_empty() {
    let ledger = Ledger::new();
    assert_eq!(ledger.next_kitty_id(), 0);
    assert_eq!(ledger.kitties(ALICE, 0), None);
    assert!(ledger.events().is_empty());
}

#[test]
fn create_first_kitty() {
    let mut ledger = Ledger::new();
    assert_eq!(ledger.create(ALICE, &SEED, Some(0)), Ok(0));
    assert_eq!(ledger.kitties(ALICE, 0), Some(Kitty(DNA_ALICE_0)));
    assert_eq!(ledger.next_kitty_id(), 1);
    assert_eq!(ledger.events(), &vec![Event::KittyCreated(ALICE, 0, Kitty(DNA_ALICE_0))]);
}

#[test]
fn create_at_max_counter_overflows() {
    let mut ledger = Ledger::from_genesis(u32::MAX);
    assert_eq!(ledger.create(BOB, &SEED, Some(0)), Err(Error::KittiesIdOverflow));
    assert_eq!(ledger.next_kitty_id(), u32::MAX);
    assert_eq!(ledger.kitties(BOB, u32::MAX), None);
    assert!(ledger.events().is_empty());
}

#[test]
fn overflow_keeps_earlier_kitties() {
    let mut ledger = Ledger::from_genesis(u32::MAX - 1);
    assert_eq!(ledger.create(ALICE, &SEED, Some(0)), Ok(u32::MAX - 1));
    assert_eq!(ledger.create(ALICE, &SEED, Some(1)), Err(Error::KittiesIdOverflow));
    assert_eq!(ledger.next_kitty_id(), u32::MAX);
    assert_eq!(ledger.kitties(ALICE, u32::MAX - 1), Some(Kitty(DNA_ALICE_0)));
    assert_eq!(ledger.events().len(), 1);
}

#[test]
fn two_creations_by_same_caller() {
    let mut ledger = Ledger::new();
    assert_eq!(ledger.create(ALICE, &SEED, Some(0)), Ok(0));
    assert_eq!(ledger.create(ALICE, &SEED, Some(1)), Ok(1));
    let first = ledger.kitties(ALICE, 0).unwrap();
    let second = ledger.kitties(ALICE, 1).unwrap();
    assert_eq!(first, Kitty(DNA_ALICE_0));
    assert_eq!(second, Kitty(DNA_ALICE_1));
    assert_ne!(first, second);
    assert_eq!(ledger.next_kitty_id(), 2);
    assert_eq!(ledger.events().len(), 2);
}

#[test]
fn identifiers_are_global_across_owners() {
    let mut ledger = Ledger::new();
    assert_eq!(ledger.create(ALICE, &SEED, Some(0)), Ok(0));
    assert_eq!(ledger.create(BOB, &SEED, Some(0)), Ok(1));
    assert_eq!(ledger.create(ALICE, &SEED, Some(1)), Ok(2));
    assert_eq!(ledger.kitties(BOB, 0), None);
    assert_eq!(ledger.kitties(ALICE, 1), None);
    assert_eq!(ledger.kitties(BOB, 1), Some(Kitty(DNA_BOB_0)));
    assert_eq!(ledger.kitties(ALICE, 2), Some(Kitty(DNA_ALICE_1)));
}

#[test]
fn identifiers_count_up_from_zero() {
    let mut ledger = Ledger::new();
    for i in 0..50u32 {
        let owner = (i % 3) as u64;
        assert_eq!(ledger.create(owner, &SEED, Some(i)), Ok(i));
    }
    assert_eq!(ledger.next_kitty_id(), 50);
    assert_eq!(ledger.events().len(), 50);
    for i in 0..50u32 {
        let owner = (i % 3) as u64;
        assert_eq!(ledger.kitties(owner, i), Some(generate(&SEED, owner, Some(i))));
    }
}

#[test]
fn mint_round_trip() {
    let mut ledger = Ledger::from_genesis(10);
    let kitty = Kitty([9; 16]);
    assert_eq!(ledger.mint(BOB, kitty), Ok(10));
    assert_eq!(ledger.kitties(BOB, 10), Some(kitty));
    assert_eq!(ledger.events(), &vec![Event::KittyCreated(BOB, 10, kitty)]);
    assert_eq!(ledger.mint(ALICE, Kitty([1; 16])), Ok(11));
    assert_eq!(ledger.kitties(BOB, 10), Some(kitty));
}
