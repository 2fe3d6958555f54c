//! The command surface: the messages a caller sends, the answers the handlers
//! return, and the host-delivered context of a call (the authenticated
//! sender, the payment attached to it, and the contract's own custodial
//! address).

use vstd::prelude::*;

verus! {

/// One unit of attached payment: a denomination and an amount in its minimal
/// units.
pub struct Coin {
    pub denom: String,
    pub amount: u128,
}

/// The host-supplied context of one command: who sent it (authenticated by
/// the host), what payment was attached, and the contract's own custodial
/// account identifier.
pub struct Env {
    pub contract_address: String,
    pub sender: String,
    pub sent_funds: Vec<Coin>,
}

/// The initialization message; it carries nothing.
pub struct InitMsg {}

/// The commands that mutate state.
pub enum HandleMsg {
    Create { name: String, description: String },
    Donate { name: String },
    Withdraw { name: String, amount: u32 },
}

/// The read-only queries.
pub enum QueryMsg {
    Campaigns {},
    Campaign { name: String },
}

/// Responses from the mutating commands.
#[derive(Debug)]
pub enum HandleAnswer {
    Create { status: String },
    /// A status message and the campaign's recorded amount after the donation.
    Donate { status: String, status_value: u128 },
    /// A status message and the campaign's recorded amount after the withdrawal.
    Withdraw { status: String, status_value: u128 },
}

/// Responses from the queries.
#[derive(Debug)]
pub enum QueryAnswer {
    /// Every campaign name ever created, in creation order.
    Campaigns { names: Vec<String> },
    Campaign { owner: String, description: String, amount: u128 },
}

} // verus!
