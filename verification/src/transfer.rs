//! The transfer engine: the only component that moves value between ledger
//! entries. Every new balance is computed and every error condition checked
//! before either write is issued, so a transfer commits both mutations or
//! none, and an internal transfer never changes the sum of all balances.

use vstd::prelude::*;

use crate::error::Error;
use crate::ledger::Ledger;

verus! {

/// What a successful `transfer` did to the ledger: `amount` moved from
/// `from` to `to`, no other balance touched, and the sum of all balances
/// unchanged. A transfer to the debited account itself leaves its balance
/// as it was.
pub open spec fn transfer_ok_post(
    prev: Ledger,
    next: Ledger,
    from: Seq<char>,
    to: Seq<char>,
    amount: u128,
) -> bool {
    &&& prev.balance(from) >= amount
    &&& (from != to ==> prev.balance(to) + amount <= u128::MAX && next.balances()
        == prev.balances().insert(from, (prev.balance(from) - amount) as u128).insert(
        to,
        (prev.balance(to) + amount) as u128,
    ))
    &&& (from == to ==> next.balances() == prev.balances().insert(from, prev.balance(from)))
    &&& next.total() == prev.total()
}

/// Moves `amount` from the `from` balance to the `to` balance, or fails with
/// no write at all: `InsufficientFunds` when the debit would underflow,
/// `Overflow` when the credit would overflow.
pub fn transfer(ledger: &mut Ledger, from: &String, to: &String, amount: u128) -> (r: Result<
    (),
    Error,
>)
    requires
        old(ledger).wf(),
    ensures
        final(ledger).wf(),
        match r {
            Ok(()) => transfer_ok_post(*old(ledger), *final(ledger), from@, to@, amount),
            Err(Error::InsufficientFunds) => old(ledger).balance(from@) < amount
                && *final(ledger) == *old(ledger),
            Err(Error::Overflow) => {
                &&& old(ledger).balance(from@) >= amount
                &&& from@ != to@
                &&& old(ledger).balance(to@) + amount > u128::MAX
                &&& *final(ledger) == *old(ledger)
            },
            _ => false,
        },
{
    let from_balance = ledger.balance_of(from);
    if from_balance < amount {
        return Err(Error::InsufficientFunds);
    }
    let new_from = from_balance - amount;
    if *from == *to {
        // The credit lands on the freshly debited balance, which cannot
        // overflow; the account's balance is left exactly as it was.
        ledger.set_balance(from, new_from + amount);
        return Ok(());
    }
    let to_balance = ledger.balance_of(to);
    if amount > u128::MAX - to_balance {
        return Err(Error::Overflow);
    }
    let new_to = to_balance + amount;
    ledger.set_balance(from, new_from);
    ledger.set_balance(to, new_to);
    Ok(())
}

/// Credits `amount`, arriving from a source outside the ledger, to `account`;
/// the sum of all balances grows by exactly `amount`. Fails with `Overflow`,
/// and no write, when the credit would overflow.
pub fn deposit(ledger: &mut Ledger, account: &String, amount: u128) -> (r: Result<(), Error>)
    requires
        old(ledger).wf(),
    ensures
        final(ledger).wf(),
        match r {
            Ok(()) => {
                &&& old(ledger).balance(account@) + amount <= u128::MAX
                &&& final(ledger).balances() == old(ledger).balances().insert(
                    account@,
                    (old(ledger).balance(account@) + amount) as u128,
                )
                &&& final(ledger).total() == old(ledger).total() + amount
            },
            Err(Error::Overflow) => old(ledger).balance(account@) + amount > u128::MAX
                && *final(ledger) == *old(ledger),
            _ => false,
        },
{
    let balance = ledger.balance_of(account);
    if amount > u128::MAX - balance {
        return Err(Error::Overflow);
    }
    ledger.set_balance(account, balance + amount);
    Ok(())
}

} // verus!
