use anchor_lang::prelude::Pubkey;
use betradefi_solana::{check_id, id, ID};

#[test]
fn declared_id_is_the_base58_identifier() {
    let declared = Pubkey::from_str_const("8P8E86Du9K1uo5CSeU1MkmRbEqDKvfWtwWdGijRZAuzf");
    assert_eq!(declared.to_bytes(), ID);
    assert_eq!(
        Pubkey::new_from_array(ID).to_string(),
        "8P8E86Du9K1uo5CSeU1MkmRbEqDKvfWtwWdGijRZAuzf"
    );
}

#[test]
fn id_returns_the_declared_id() {
    assert_eq!(id(), ID);
    assert_eq!(id(), id());
    assert_eq!(id()[0], 109);
    assert_eq!(id()[31], 200);
}

#[test]
fn check_id_accepts_the_declared_id() {
    assert!(check_id(&ID));
    assert!(check_id(&id()));
}

#[test]
fn check_id_rejects_any_other_id() {
    assert!(!check_id(&[0u8; 32]));
    for at in 0..32 {
        let mut other = ID;
        other[at] ^= 1;
        assert!(!check_id(&other));
    }
}
