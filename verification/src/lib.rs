//! A fundraising-campaign ledger: a registry of named campaigns, a per-account
//! balance ledger, and an atomic transfer engine that together guarantee that
//! funds are neither created nor destroyed and that only a campaign's creator
//! can withdraw what was donated to it.

pub mod codec;
pub mod contract;
pub mod error;
pub mod ledger;
pub mod msg;
pub mod state;
pub mod transfer;
