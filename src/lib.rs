//! An escrow-based invoicing engine: a receiver issues an invoice to a payer,
//! the payer funds it, and the escrowed funds are released to the receiver
//! (once or in installments) subject to cancellation and fee rules.
pub mod contract;
pub mod error;
pub mod escrow;
pub mod execute;
pub mod guarantees;
pub mod ledger;
pub mod msg;
pub mod state;
