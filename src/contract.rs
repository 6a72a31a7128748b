//! The entry points: bootstrap, command dispatch and the read-only queries.
use vstd::prelude::*;
use crate::error::EscrowError;
use crate::escrow::{funds_total, Settlement};
use crate::execute::{
    accept_invoice, accept_outcome, admin_change_admin, admin_outcome, cancel_outcome,
    create_outcome, new_invoice, stop_contract, withdraw_outcome, withdraw_payment,
};
use crate::ledger::{clamp_count, lookup, page_of};
use crate::msg::{Env, ExecuteMsg, InstantiateMsg, MessageInfo, QueryAnswer, QueryMsg};
use crate::state::{AdminStore, ContractStore, EscrowState, InvoiceStore};

verus! {

/// Sets up an empty engine whose admin is the caller.
pub fn instantiate(info: &MessageInfo, msg: InstantiateMsg) -> (r: EscrowState)
    ensures
        r.wf(),
        r.admin.wallet@ == info.sender@,
        r.last_invoice_id == 0,
        forall|o: Seq<char>| #[trigger] r.invoices.ledger.entries(o).len() == 0,
        forall|o: Seq<char>| #[trigger] r.contracts.ledger.entries(o).len() == 0,
{
    let mut admin = AdminStore::new();
    admin.save_admin_wallet(&info.sender);
    EscrowState {
        admin,
        invoices: InvoiceStore::new(),
        contracts: ContractStore::new(),
        last_invoice_id: 0,
    }
}

/// Runs one command. `addr_ok` is the host's verdict on the identity that
/// the command names (the payer of a new invoice, or the new admin); the
/// other commands ignore it. Returns the settlements to carry out.
pub fn execute(state: &mut EscrowState, env: &Env, info: &MessageInfo, msg: ExecuteMsg, addr_ok: bool) -> (r: Result<Vec<Settlement>, EscrowError>)
    requires
        old(state).wf(),
        msg is AcceptInvoice ==> funds_total(info.funds@) <= u128::MAX,
    ensures
        final(state).wf(),
        match msg {
            ExecuteMsg::SubmitInvoice { purpose, amount, admin_charge, customer_charge, payer, days, recurrent_time, token } => {
                &&& create_outcome(*old(state), *final(state), *info, purpose, amount, admin_charge, customer_charge,
                    payer, addr_ok, days, recurrent_time, token,
                    match r {
                        Ok(_) => Ok((old(state).last_invoice_id + 1) as u64),
                        Err(e) => Err(e),
                    })
                &&& r.is_ok() ==> r->Ok_0@.len() == 0
            },
            ExecuteMsg::AcceptInvoice { id } => accept_outcome(*old(state), *final(state), *env, *info, id, r),
            ExecuteMsg::CancelPayment { id } => cancel_outcome(*old(state), *final(state), *env, *info, id, r),
            ExecuteMsg::WithdrawPayment { id } => withdraw_outcome(*old(state), *final(state), *env, *info, id, r),
            ExecuteMsg::AdminUpdateAmin { new_admin } => {
                &&& admin_outcome(*old(state), *final(state), *info, new_admin, addr_ok,
                    match r {
                        Ok(_) => Ok(()),
                        Err(e) => Err(e),
                    })
                &&& r.is_ok() ==> r->Ok_0@.len() == 0
            },
        },
{
    match msg {
        ExecuteMsg::SubmitInvoice { purpose, amount, admin_charge, customer_charge, payer, days, recurrent_time, token } => {
            match new_invoice(state, info, purpose, amount, admin_charge, customer_charge, payer, addr_ok, days, recurrent_time, token) {
                Ok(_) => Ok(Vec::new()),
                Err(e) => Err(e),
            }
        },
        ExecuteMsg::AcceptInvoice { id } => accept_invoice(state, env, info, id),
        ExecuteMsg::CancelPayment { id } => stop_contract(state, env, info, id),
        ExecuteMsg::WithdrawPayment { id } => withdraw_payment(state, env, info, id),
        ExecuteMsg::AdminUpdateAmin { new_admin } => {
            match admin_change_admin(state, info, new_admin, addr_ok) {
                Ok(()) => Ok(Vec::new()),
                Err(e) => Err(e),
            }
        },
    }
}

/// Answers one read-only query; no query checks who asks.
pub fn query(state: &EscrowState, msg: QueryMsg) -> (r: Result<QueryAnswer, EscrowError>)
    requires
        state.wf(),
    ensures
        match msg {
            QueryMsg::SingleInvoice { id, owner } => match lookup(state.invoices.ledger.entries(owner@), id) {
                Some(v) => r.is_ok() && r->Ok_0 == QueryAnswer::Invoice(v),
                None => r.is_err() && r->Err_0 == EscrowError::NotFound,
            },
            QueryMsg::NumberOfInvoice { owner } => r.is_ok()
                && r->Ok_0 == QueryAnswer::Count(clamp_count(state.invoices.ledger.entries(owner@).len())),
            QueryMsg::PaginatedInvoice { owner, page, page_size } => if page_size == 0 {
                r.is_err() && r->Err_0 == EscrowError::InvalidArgument
            } else {
                r.is_ok() && r->Ok_0 is Invoices
                    && r->Ok_0->Invoices_0@ == page_of(state.invoices.ledger.entries(owner@), page as int, page_size as int)
            },
            QueryMsg::SingleContract { id, payer } => match lookup(state.contracts.ledger.entries(payer@), id) {
                Some(v) => r.is_ok() && r->Ok_0 == QueryAnswer::Contract(v),
                None => r.is_err() && r->Err_0 == EscrowError::NotFound,
            },
            QueryMsg::NumberOfContract { payer } => r.is_ok()
                && r->Ok_0 == QueryAnswer::Count(clamp_count(state.contracts.ledger.entries(payer@).len())),
            QueryMsg::PaginatedContract { payer, page, page_size } => if page_size == 0 {
                r.is_err() && r->Err_0 == EscrowError::InvalidArgument
            } else {
                r.is_ok() && r->Ok_0 is Contracts
                    && r->Ok_0->Contracts_0@ == page_of(state.contracts.ledger.entries(payer@), page as int, page_size as int)
            },
            QueryMsg::AdmimWallet {} => r.is_ok() && r->Ok_0 is Admin && r->Ok_0->Admin_0@ == state.admin.wallet@,
        },
{
    match msg {
        QueryMsg::SingleInvoice { id, owner } => match state.invoices.load_invoice(&owner, id) {
            Ok(v) => Ok(QueryAnswer::Invoice(v)),
            Err(e) => Err(e),
        },
        QueryMsg::NumberOfInvoice { owner } => Ok(QueryAnswer::Count(state.invoices.num_invoice(&owner))),
        QueryMsg::PaginatedInvoice { owner, page, page_size } => {
            match state.invoices.paging_invoice_list(&owner, page, page_size) {
                Ok(v) => Ok(QueryAnswer::Invoices(v)),
                Err(e) => Err(e),
            }
        },
        QueryMsg::SingleContract { id, payer } => match state.contracts.load_contract(&payer, id) {
            Ok(v) => Ok(QueryAnswer::Contract(v)),
            Err(e) => Err(e),
        },
        QueryMsg::NumberOfContract { payer } => Ok(QueryAnswer::Count(state.contracts.num_contract(&payer))),
        QueryMsg::PaginatedContract { payer, page, page_size } => {
            match state.contracts.paging_contract_list(&payer, page, page_size) {
                Ok(v) => Ok(QueryAnswer::Contracts(v)),
                Err(e) => Err(e),
            }
        },
        QueryMsg::AdmimWallet {} => Ok(QueryAnswer::Admin(state.admin.get_admin_wallet())),
    }
}

} // verus!
