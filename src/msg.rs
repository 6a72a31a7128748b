//! What a call carries into the engine, and what a query hands back.
use vstd::prelude::*;
use crate::escrow::Coin;
use crate::state::{Contract, Invoice, Token};

verus! {

/// The execution environment of one call.
pub struct Env {
    /// The ledger's clock, in seconds, read once per call.
    pub time: u64,
}

/// Who calls, and what value the call attaches.
pub struct MessageInfo {
    pub sender: String,
    pub funds: Vec<Coin>,
}

pub struct InstantiateMsg {}

pub enum ExecuteMsg {
    SubmitInvoice {
        purpose: String,
        amount: u128,
        admin_charge: u128,
        customer_charge: u128,
        payer: String,
        days: u64,
        recurrent_time: Option<u64>,
        token: Token,
    },
    AcceptInvoice { id: u64 },
    CancelPayment { id: u64 },
    WithdrawPayment { id: u64 },
    AdminUpdateAmin { new_admin: String },
}

pub enum QueryMsg {
    SingleInvoice { id: u64, owner: String },
    NumberOfInvoice { owner: String },
    PaginatedInvoice { owner: String, page: u32, page_size: u32 },
    SingleContract { id: u64, payer: String },
    NumberOfContract { payer: String },
    PaginatedContract { payer: String, page: u32, page_size: u32 },
    AdmimWallet {},
}

pub enum QueryAnswer {
    Invoice(Invoice),
    Contract(Contract),
    Count(u32),
    Invoices(Vec<(u64, Invoice)>),
    Contracts(Vec<(u64, Contract)>),
    Admin(String),
}

} // verus!
