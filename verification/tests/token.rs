use token_ledger::address::Address;
use token_ledger::token::TokenId;

#[test]
fn succ_counts_up() {
    assert_eq!(TokenId::zero().succ(), TokenId::from_u64(1));
    assert_eq!(TokenId::from_u64(5).succ(), TokenId::from_u64(6));
}

#[test]
fn succ_carries_across_words() {
    let a = TokenId { w0: u64::MAX, w1: 0, w2: 0, w3: 0 };
    assert_eq!(a.succ(), TokenId { w0: 0, w1: 1, w2: 0, w3: 0 });

    let b = TokenId { w0: u64::MAX, w1: u64::MAX, w2: 0, w3: 0 };
    assert_eq!(b.succ(), TokenId { w0: 0, w1: 0, w2: 1, w3: 0 });

    let c = TokenId { w0: u64::MAX, w1: u64::MAX, w2: u64::MAX, w3: 7 };
    assert_eq!(c.succ(), TokenId { w0: 0, w1: 0, w2: 0, w3: 8 });
}

#[test]
fn zero_address_is_the_sentinel() {
    assert!(Address::zero().is_zero());
    assert_eq!(Address::zero().bytes, [0u8; 20]);
}

#[test]
fn nonzero_addresses_are_not_the_sentinel() {
    let mut bytes = [0u8; 20];
    bytes[19] = 1;
    assert!(!Address::from_bytes(bytes).is_zero());
    assert!(!Address::from_bytes([0xFF; 20]).is_zero());
}
