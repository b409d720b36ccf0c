use token_ledger::address::Address;
use token_ledger::errors::LedgerError;
use token_ledger::ledger::{mint_decision, NftContract};
use token_ledger::token::TokenId;

fn addr(b: u8) -> Address {
    Address::from_bytes([b; 20])
}

#[test]
fn fresh_ledger_starts_at_zero() {
    let c = NftContract::new();
    assert_eq!(c.next_token_id(), TokenId::zero());
    assert!(c.owner_of(&TokenId::zero()).is_zero());
    assert_eq!(c.log.len(), 0);
}

#[test]
fn scenario_two_mints_then_rejected_zero_recipient() {
    let mut c = NftContract::new();
    assert_eq!(c.next_token_id(), TokenId::from_u64(0));

    let a = addr(0xAA);
    let b = addr(0xBB);

    let t0 = c.mint(&a).unwrap();
    assert_eq!(t0, TokenId::from_u64(0));
    assert_eq!(c.owner_of(&t0), a);

    let t1 = c.mint(&b).unwrap();
    assert_eq!(t1, TokenId::from_u64(1));
    assert_eq!(c.owner_of(&t1), b);
    assert_eq!(c.owner_of(&t0), a);

    let r = c.mint(&Address::zero());
    assert_eq!(r, Err(LedgerError::InvalidRecipient));
    assert_eq!(c.next_token_id(), TokenId::from_u64(2));
}

#[test]
fn mint_to_zero_fails_and_changes_nothing() {
    let mut c = NftContract::new();
    let r = c.mint(&Address::zero());
    assert_eq!(r, Err(LedgerError::InvalidRecipient));
    assert_eq!(c.next_token_id(), TokenId::zero());
    assert!(c.owner_of(&TokenId::zero()).is_zero());
    assert_eq!(c.log.len(), 0);
}

#[test]
fn failing_mint_consumes_no_id() {
    let mut c = NftContract::new();
    c.mint(&addr(1)).unwrap();
    c.mint(&addr(2)).unwrap();
    let before = c.next_token_id();
    let owner_before = c.owner_of(&TokenId::from_u64(1));

    let r = c.mint(&Address::zero());
    assert_eq!(r, Err(LedgerError::InvalidRecipient));
    assert_eq!(c.next_token_id(), before);
    assert_eq!(c.owner_of(&TokenId::from_u64(1)), owner_before);
    assert_eq!(c.log.len(), 2);
}

#[test]
fn sequential_ids_no_gaps_no_repeats() {
    let mut c = NftContract::new();
    for i in 0..10u64 {
        let t = c.mint(&addr((i + 1) as u8)).unwrap();
        assert_eq!(t, TokenId::from_u64(i));
    }
    assert_eq!(c.next_token_id(), TokenId::from_u64(10));
    assert_eq!(c.log.len(), 10);
    for i in 0..10usize {
        assert_eq!(c.log[i].token_id, TokenId::from_u64(i as u64));
        assert!(c.log[i].from.is_zero());
        assert_eq!(c.log[i].to, addr((i + 1) as u8));
    }
}

#[test]
fn unminted_ids_read_as_sentinel() {
    let mut c = NftContract::new();
    assert!(c.owner_of(&TokenId::from_u64(5)).is_zero());
    c.mint(&addr(7)).unwrap();
    assert!(!c.owner_of(&TokenId::from_u64(0)).is_zero());
    assert!(c.owner_of(&TokenId::from_u64(1)).is_zero());
    assert!(c.owner_of(&TokenId::from_u64(u64::MAX)).is_zero());
    let big = TokenId { w0: 1, w1: 2, w2: 3, w3: 4 };
    assert!(c.owner_of(&big).is_zero());
}

#[test]
fn decision_rejects_zero_recipient_first() {
    // recipient validation precedes the defensive ownership check
    let r = mint_decision(&TokenId::from_u64(3), &addr(9), &Address::zero());
    assert!(matches!(r, Err(LedgerError::InvalidRecipient)));
}

#[test]
fn decision_rejects_already_minted_id() {
    // reachable only if the counter and the mapping were to desynchronize
    let r = mint_decision(&TokenId::from_u64(3), &addr(9), &addr(1));
    assert!(matches!(r, Err(LedgerError::TokenAlreadyMinted)));
}

#[test]
fn decision_computes_all_effects() {
    let next = TokenId::from_u64(4);
    let to = addr(5);
    let eff = mint_decision(&next, &Address::zero(), &to).unwrap();
    assert_eq!(eff.token_id, next);
    assert_eq!(eff.next_id_after, TokenId::from_u64(5));
    assert_eq!(eff.owner, to);
    assert!(eff.event.from.is_zero());
    assert_eq!(eff.event.to, to);
    assert_eq!(eff.event.token_id, next);
}

#[test]
fn ledger_error_reasons_match_boundary_strings() {
    assert_eq!(
        LedgerError::InvalidRecipient.reason(),
        "Invalid address: cannot mint to zero address"
    );
    assert_eq!(LedgerError::TokenAlreadyMinted.reason(), "Token already minted");
}
