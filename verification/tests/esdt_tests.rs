use mvx_challenge::esdt::token_ticker;
use mvx_challenge::{egld_token_id, is_egld};

#[test]
fn ticker_of_a_token_identifier() {
    assert_eq!(token_ticker(&b"USDC-c76f1f".to_vec()), Some(b"USDC".to_vec()));
    assert_eq!(token_ticker(&b"WEGLD-bd4d79".to_vec()), Some(b"WEGLD".to_vec()));
    assert_eq!(token_ticker(&b"ABCDEFGHIJ-123456".to_vec()), Some(b"ABCDEFGHIJ".to_vec()));
}

#[test]
fn ticker_of_the_shortest_identifier_is_empty() {
    assert_eq!(token_ticker(&b"-abcdef".to_vec()), Some(Vec::new()));
}

#[test]
fn too_short_identifier_has_no_ticker() {
    assert_eq!(token_ticker(&b"abcdef".to_vec()), None);
    assert_eq!(token_ticker(&Vec::new()), None);
}

#[test]
fn egld_identifier() {
    assert_eq!(egld_token_id(), b"EGLD".to_vec());
    assert!(is_egld(&b"EGLD".to_vec()));
    assert!(!is_egld(&b"EGLD-123456".to_vec()));
    assert!(!is_egld(&b"egld".to_vec()));
}
