use lottery::addr::{derive_lottery_address, derive_master_address, derive_ticket_address};
use lottery::winner::{pseudo_random, winning_ticket};

#[test]
fn master_address_is_the_bare_tag() {
    assert_eq!(derive_master_address(), b"master".to_vec());
}

#[test]
fn lottery_address_is_tag_and_le_id() {
    let mut expected = b"lottery".to_vec();
    expected.extend_from_slice(&258u32.to_le_bytes());
    assert_eq!(derive_lottery_address(258), expected);
}

#[test]
fn ticket_address_nests_the_lottery_address() {
    let mut expected = b"ticket".to_vec();
    expected.extend_from_slice(&derive_lottery_address(7));
    expected.extend_from_slice(&3u32.to_le_bytes());
    assert_eq!(derive_ticket_address(7, 3), expected);
}

#[test]
fn addresses_of_distinct_keys_differ() {
    assert_ne!(derive_lottery_address(1), derive_lottery_address(2));
    assert_ne!(derive_ticket_address(1, 2), derive_ticket_address(2, 1));
    assert_ne!(derive_ticket_address(1, 2), derive_ticket_address(1, 3));
    assert_ne!(derive_master_address(), derive_lottery_address(1));
    assert_ne!(derive_lottery_address(1), derive_ticket_address(1, 1));
}

#[test]
fn pseudo_random_follows_the_documented_formula() {
    for (timestamp, slot) in [
        (1_700_000_000i64, 42u64),
        (0, 1),
        (-1, 7),
        (i64::MIN, u64::MAX),
        (i64::MAX, 0),
    ] {
        let digest =
            anchor_lang::solana_program::blake3::hash(&timestamp.to_be_bytes()).to_bytes();
        let h = u64::from_le_bytes(digest[..8].try_into().unwrap());
        let expected = ((h as u128 * slot as u128) % 0xFFFF_FFFFu128) as u32;
        assert_eq!(pseudo_random(timestamp, slot), expected);
    }
}

#[test]
fn pseudo_random_is_deterministic() {
    assert_eq!(pseudo_random(55, 99), pseudo_random(55, 99));
}

#[test]
fn winning_ticket_stays_within_sold_tickets() {
    for slot in 0u64..50 {
        for sold in [1u32, 2, 3, 10, u32::MAX] {
            let w = winning_ticket(1_650_000_000 + slot as i64, slot, sold);
            assert!(w >= 1 && w <= sold);
        }
    }
    assert_eq!(winning_ticket(123, 456, 1), 1);
}
