use vstd::prelude::*;

verus! {

/// Every failure a command can report. Each command returns one of these as a
/// terminal failure; no error is retried internally and none corrupts state
/// visible to later commands.
#[derive(Clone, Copy, Debug, PartialEq, Eq, Structural)]
pub enum Error {
    /// The named campaign does not exist (or the registry was never initialized).
    NotFound,
    /// The caller of a withdrawal is not the campaign's owner.
    Unauthorized,
    /// A donation's attached payment has the wrong count, a too-small amount,
    /// or the wrong denomination.
    InvalidDonation,
    /// A checked subtraction would underflow, on the campaign's recorded
    /// amount or on a ledger balance.
    InsufficientFunds,
    /// A checked addition would overflow a 128-bit balance.
    Overflow,
    /// A stored ledger value is not the expected fixed width on decode.
    CorruptedData,
}

} // verus!
