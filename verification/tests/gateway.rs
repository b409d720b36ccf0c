use token_ledger::address::Address;
use token_ledger::errors::GatewayError;
use token_ledger::gateway::{GaslessApp, MAX_MESSAGE_BYTES};

#[test]
fn empty_message_is_rejected() {
    let g = GaslessApp::new();
    let caller = Address::from_bytes([3; 20]);
    let r = g.post_message(&caller, Vec::new());
    assert!(matches!(r, Err(GatewayError::EmptyMessage)));
}

#[test]
fn one_byte_message_succeeds() {
    let g = GaslessApp::new();
    let caller = Address::from_bytes([3; 20]);
    let ev = g.post_message(&caller, vec![b'x']).unwrap();
    assert_eq!(ev.user, caller);
    assert_eq!(ev.message, vec![b'x']);
}

#[test]
fn message_of_exactly_the_limit_succeeds() {
    let g = GaslessApp::new();
    let caller = Address::from_bytes([4; 20]);
    let msg = vec![b'm'; MAX_MESSAGE_BYTES];
    let ev = g.post_message(&caller, msg.clone()).unwrap();
    assert_eq!(ev.user, caller);
    assert_eq!(ev.message, msg);
}

#[test]
fn message_over_the_limit_is_rejected() {
    let g = GaslessApp::new();
    let caller = Address::from_bytes([4; 20]);
    let msg = vec![b'm'; MAX_MESSAGE_BYTES + 1];
    let r = g.post_message(&caller, msg);
    assert!(matches!(r, Err(GatewayError::MessageTooLong)));
}

#[test]
fn gateway_error_reasons_match_boundary_strings() {
    assert_eq!(GatewayError::EmptyMessage.reason(), "Message cannot be empty");
    assert_eq!(
        GatewayError::MessageTooLong.reason(),
        "Message too long (max 1000 characters)"
    );
}
