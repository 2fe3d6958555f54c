//! The ledger, the transfer engine, and the stored-balance codec, exercised
//! directly.

use crowdfund::codec::{decode_balance, encode_balance};
use crowdfund::error::Error;
use crowdfund::ledger::Ledger;
use crowdfund::transfer::{deposit, transfer};

fn s(x: &str) -> String {
    x.to_string()
}

#[test]
fn balance_of_absent_account_is_zero() {
    let ledger = Ledger::new();
    assert_eq!(ledger.balance_of(&s("nobody")), 0);
}

#[test]
fn set_balance_creates_then_overwrites() {
    let mut ledger = Ledger::new();
    ledger.set_balance(&s("a"), 7);
    assert_eq!(ledger.balance_of(&s("a")), 7);
    ledger.set_balance(&s("a"), 3);
    assert_eq!(ledger.balance_of(&s("a")), 3);
    assert_eq!(ledger.entries.len(), 1);
}

#[test]
fn transfer_moves_exactly_the_amount() {
    let mut ledger = Ledger::new();
    ledger.set_balance(&s("from"), 100);
    transfer(&mut ledger, &s("from"), &s("to"), 40).unwrap();
    assert_eq!(ledger.balance_of(&s("from")), 60);
    assert_eq!(ledger.balance_of(&s("to")), 40);
}

#[test]
fn transfer_of_entire_balance_zeroes_the_source() {
    let mut ledger = Ledger::new();
    ledger.set_balance(&s("from"), 100);
    transfer(&mut ledger, &s("from"), &s("to"), 100).unwrap();
    assert_eq!(ledger.balance_of(&s("from")), 0);
    assert_eq!(ledger.balance_of(&s("to")), 100);
}

#[test]
fn transfer_to_self_changes_nothing() {
    let mut ledger = Ledger::new();
    ledger.set_balance(&s("a"), 100);
    transfer(&mut ledger, &s("a"), &s("a"), 60).unwrap();
    assert_eq!(ledger.balance_of(&s("a")), 100);
}

#[test]
fn underfunded_transfer_fails_with_no_partial_debit() {
    let mut ledger = Ledger::new();
    ledger.set_balance(&s("from"), 30);
    ledger.set_balance(&s("to"), 5);
    let err = transfer(&mut ledger, &s("from"), &s("to"), 31).unwrap_err();
    assert_eq!(err, Error::InsufficientFunds);
    assert_eq!(ledger.balance_of(&s("from")), 30);
    assert_eq!(ledger.balance_of(&s("to")), 5);
}

#[test]
fn overflowing_transfer_fails_with_no_partial_debit() {
    let mut ledger = Ledger::new();
    ledger.set_balance(&s("from"), 30);
    ledger.set_balance(&s("to"), u128::MAX);
    let err = transfer(&mut ledger, &s("from"), &s("to"), 1).unwrap_err();
    assert_eq!(err, Error::Overflow);
    assert_eq!(ledger.balance_of(&s("from")), 30);
    assert_eq!(ledger.balance_of(&s("to")), u128::MAX);
}

#[test]
fn deposit_grows_one_balance() {
    let mut ledger = Ledger::new();
    deposit(&mut ledger, &s("a"), 11).unwrap();
    deposit(&mut ledger, &s("a"), 4).unwrap();
    assert_eq!(ledger.balance_of(&s("a")), 15);
}

#[test]
fn overflowing_deposit_fails_and_changes_nothing() {
    let mut ledger = Ledger::new();
    ledger.set_balance(&s("a"), u128::MAX - 1);
    let err = deposit(&mut ledger, &s("a"), 2).unwrap_err();
    assert_eq!(err, Error::Overflow);
    assert_eq!(ledger.balance_of(&s("a")), u128::MAX - 1);
}

#[test]
fn encode_balance_is_big_endian_and_fixed_width() {
    assert_eq!(encode_balance(0), vec![0u8; 16]);
    let mut expected = vec![0u8; 16];
    expected[15] = 0x2a;
    assert_eq!(encode_balance(42), expected);
    let encoded = encode_balance(0x0102030405060708090a0b0c0d0e0f10);
    assert_eq!(
        encoded,
        vec![1, 2, 3, 4, 5, 6, 7, 8, 9, 0x0a, 0x0b, 0x0c, 0x0d, 0x0e, 0x0f, 0x10]
    );
}

#[test]
fn decode_balance_round_trips() {
    for value in [0u128, 1, 999, u128::MAX - 1, u128::MAX] {
        assert_eq!(decode_balance(&encode_balance(value)).unwrap(), value);
    }
}

#[test]
fn decode_of_wrong_width_is_corrupted_data() {
    assert_eq!(decode_balance(&vec![]).unwrap_err(), Error::CorruptedData);
    assert_eq!(decode_balance(&vec![1, 2, 3]).unwrap_err(), Error::CorruptedData);
    assert_eq!(decode_balance(&vec![0u8; 17]).unwrap_err(), Error::CorruptedData);
}
