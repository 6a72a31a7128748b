//! The command handlers: each loads the records it needs, decides, and
//! writes both copies of the invoice back together, or changes nothing.
use vstd::prelude::*;
use crate::error::EscrowError;
use crate::escrow::{
    accept_refusal, accept_terms, accepted_contract, admin_cut, cancel_refusal, cancel_refund,
    cancel_terms, canceled_contract, funds_total, withdraw_refusal, withdraw_settlements,
    withdraw_terms, withdrawn_contract, Settlement,
};
use crate::ledger::{lookup, saved};
use crate::msg::{Env, MessageInfo};
use crate::state::{
    get_next_invoice_id, Condition, Contract, EscrowState, Invoice, Process, Status, Token,
};

verus! {

/// A message type that carries nothing.
pub struct Empty {}

/// Why creating an invoice is refused, if it is.
pub open spec fn create_refusal(admin_charge: u128, customer_charge: u128, payer_ok: bool, last_id: u64) -> Option<EscrowError> {
    if !payer_ok {
        Some(EscrowError::InvalidArgument)
    } else if admin_charge < 1 {
        Some(EscrowError::InvalidArgument)
    } else if customer_charge < 1 {
        Some(EscrowError::InvalidArgument)
    } else if last_id == u64::MAX {
        Some(EscrowError::IdSpaceExhausted)
    } else {
        None
    }
}

/// A new invoice as created: nothing accepted, nothing scheduled.
pub open spec fn drafted_invoice(
    id: u64,
    receiver: String,
    purpose: String,
    amount: u128,
    admin_charge: u128,
    customer_charge: u128,
    payer: String,
    days: u64,
    recurrent_time: Option<u64>,
    token: Token,
) -> Invoice {
    Invoice {
        invoice_id: id,
        receiver,
        purpose,
        amount,
        admin_charges: admin_charge,
        customer_charges: customer_charge,
        payer,
        days,
        recurrent: recurrent_time.is_some(),
        recurrent_times: match recurrent_time {
            Some(t) => t,
            None => 0,
        },
        remaining_time_of_payment: 0,
        status: Status::NotStarted,
        payment_time: 0,
        critical_time: 0,
        payment_condition: Condition::No,
        token,
    }
}

/// The custody record of a new invoice: empty and not accepted.
pub open spec fn opened_contract(inv: Invoice) -> Contract {
    Contract {
        invoice_id: inv.invoice_id,
        account_balance: 0,
        contract_process: Process::NotStarted,
        invoice: inv,
        contract_accepted: false,
    }
}

/// `post` is `pre` with `c` saved under `payer` and its invoice under
/// `receiver`, both at `id`; the admin and the id counter are untouched.
pub open spec fn committed(pre: EscrowState, post: EscrowState, receiver: Seq<char>, payer: Seq<char>, id: u64, c: Contract) -> bool {
    &&& post.admin == pre.admin
    &&& post.last_invoice_id == pre.last_invoice_id
    &&& saved(pre.invoices.ledger, post.invoices.ledger, receiver, id, c.invoice)
    &&& saved(pre.contracts.ledger, post.contracts.ledger, payer, id, c)
}

/// Checks the terms of a new invoice: a well-formed payer and both fees at
/// least one.
pub fn check_terms(admin_charge: u128, customer_charge: u128, payer_ok: bool) -> (r: Result<(), EscrowError>)
    ensures
        match create_refusal(admin_charge, customer_charge, payer_ok, 0) {
            Some(e) => r.is_err() && r->Err_0 == e,
            None => r.is_ok(),
        },
{
    if !payer_ok || admin_charge < 1 || customer_charge < 1 {
        return Err(EscrowError::InvalidArgument);
    }
    Ok(())
}

/// The custody record of a new invoice `id` from `receiver` to `payer`,
/// embedding the invoice.
pub fn open_contract(
    id: u64,
    receiver: &String,
    purpose: String,
    amount: u128,
    admin_charge: u128,
    customer_charge: u128,
    payer: &String,
    days: u64,
    recurrent_time: Option<u64>,
    token: Token,
) -> (r: Contract)
    ensures
        r == opened_contract(drafted_invoice(id, *receiver, purpose, amount, admin_charge, customer_charge, *payer, days, recurrent_time, token)),
{
    let invoice = Invoice {
        invoice_id: id,
        receiver: receiver.clone(),
        purpose,
        amount,
        admin_charges: admin_charge,
        customer_charges: customer_charge,
        payer: payer.clone(),
        days,
        recurrent: recurrent_time.is_some(),
        recurrent_times: match recurrent_time {
            Some(t) => t,
            None => 0,
        },
        remaining_time_of_payment: 0,
        status: Status::NotStarted,
        payment_time: 0,
        critical_time: 0,
        payment_condition: Condition::No,
        token,
    };
    Contract {
        invoice_id: id,
        account_balance: 0,
        contract_process: Process::NotStarted,
        invoice,
        contract_accepted: false,
    }
}

/// What creating an invoice does to the state, and what it returns.
pub open spec fn create_outcome(
    pre: EscrowState,
    post: EscrowState,
    info: MessageInfo,
    purpose: String,
    amount: u128,
    admin_charge: u128,
    customer_charge: u128,
    payer: String,
    payer_ok: bool,
    days: u64,
    recurrent_time: Option<u64>,
    token: Token,
    r: Result<u64, EscrowError>,
) -> bool {
    match create_refusal(admin_charge, customer_charge, payer_ok, pre.last_invoice_id) {
        Some(e) => r.is_err() && r->Err_0 == e && post == pre,
        None => {
            let id = (pre.last_invoice_id + 1) as u64;
            let inv = drafted_invoice(id, info.sender, purpose, amount, admin_charge, customer_charge, payer, days, recurrent_time, token);
            &&& r.is_ok() && r->Ok_0 == id
            &&& post.last_invoice_id == id
            &&& post.admin == pre.admin
            &&& saved(pre.invoices.ledger, post.invoices.ledger, info.sender@, id, inv)
            &&& saved(pre.contracts.ledger, post.contracts.ledger, payer@, id, opened_contract(inv))
        },
    }
}

/// Creates an invoice from `info.sender` to `payer` and its custody record;
/// `payer_ok` is the host's verdict on `payer` as an identity. Returns the
/// new id.
pub fn new_invoice(
    state: &mut EscrowState,
    info: &MessageInfo,
    purpose: String,
    amount: u128,
    admin_charge: u128,
    customer_charge: u128,
    payer: String,
    payer_ok: bool,
    days: u64,
    recurrent_time: Option<u64>,
    token: Token,
) -> (r: Result<u64, EscrowError>)
    requires
        old(state).wf(),
    ensures
        final(state).wf(),
        create_outcome(*old(state), *final(state), *info, purpose, amount, admin_charge, customer_charge, payer, payer_ok, days, recurrent_time, token, r),
{
    match check_terms(admin_charge, customer_charge, payer_ok) {
        Ok(()) => {},
        Err(e) => return Err(e),
    }
    let id = match get_next_invoice_id(state) {
        Ok(v) => v,
        Err(e) => return Err(e),
    };
    let contract = open_contract(id, &info.sender, purpose, amount, admin_charge, customer_charge, &payer, days, recurrent_time, token);
    state.invoices.save(&info.sender, id, &contract.invoice);
    state.contracts.save(&payer, id, &contract);
    Ok(id)
}

/// What accepting does to the state, and what it returns.
pub open spec fn accept_outcome(pre: EscrowState, post: EscrowState, env: Env, info: MessageInfo, id: u64, r: Result<Vec<Settlement>, EscrowError>) -> bool {
    match lookup(pre.contracts.ledger.entries(info.sender@), id) {
        None => r.is_err() && r->Err_0 == EscrowError::NotFound && post == pre,
        Some(c) => match accept_refusal(c, info.sender@, funds_total(info.funds@), env.time) {
            Some(e) => r.is_err() && r->Err_0 == e && post == pre,
            None => {
                let n = accepted_contract(c, funds_total(info.funds@), env.time);
                &&& r.is_ok()
                &&& r->Ok_0@ == seq![(Settlement { recipient: pre.admin.wallet, amount: admin_cut(c.invoice) as u128 })]
                &&& committed(pre, post, c.invoice.receiver@, info.sender@, id, n)
            },
        },
    }
}

/// Accepts invoice `id` from the contracts of `info.sender`, taking the
/// attached funds into escrow and the admin cut out of them.
pub fn accept_invoice(state: &mut EscrowState, env: &Env, info: &MessageInfo, id: u64) -> (r: Result<Vec<Settlement>, EscrowError>)
    requires
        old(state).wf(),
        funds_total(info.funds@) <= u128::MAX,
    ensures
        final(state).wf(),
        accept_outcome(*old(state), *final(state), *env, *info, id, r),
{
    let c = match state.contracts.load_contract(&info.sender, id) {
        Ok(v) => v,
        Err(e) => return Err(e),
    };
    proof {
        state.contracts.ledger.lemma_lookup_bounded(info.sender@, id, state.last_invoice_id);
    }
    let t = match accept_terms(&c, &info.sender, &info.funds, &state.admin.wallet, env.time) {
        Ok(v) => v,
        Err(e) => return Err(e),
    };
    state.invoices.save(&t.contract.invoice.receiver, id, &t.contract.invoice);
    state.contracts.save(&info.sender, id, &t.contract);
    Ok(t.settlements)
}

/// What canceling does to the state, and what it returns.
pub open spec fn cancel_outcome(pre: EscrowState, post: EscrowState, env: Env, info: MessageInfo, id: u64, r: Result<Vec<Settlement>, EscrowError>) -> bool {
    match lookup(pre.contracts.ledger.entries(info.sender@), id) {
        None => r.is_err() && r->Err_0 == EscrowError::NotFound && post == pre,
        Some(c) => match cancel_refusal(c, info.sender@, env.time) {
            Some(e) => r.is_err() && r->Err_0 == e && post == pre,
            None => {
                &&& r.is_ok()
                &&& r->Ok_0@ == seq![(Settlement { recipient: c.invoice.payer, amount: cancel_refund(c, env.time) })]
                &&& committed(pre, post, c.invoice.receiver@, info.sender@, id, canceled_contract(c, env.time))
            },
        },
    }
}

/// Cancels invoice `id` from the contracts of `info.sender`, refunding the
/// payer.
pub fn stop_contract(state: &mut EscrowState, env: &Env, info: &MessageInfo, id: u64) -> (r: Result<Vec<Settlement>, EscrowError>)
    requires
        old(state).wf(),
    ensures
        final(state).wf(),
        cancel_outcome(*old(state), *final(state), *env, *info, id, r),
{
    let c = match state.contracts.load_contract(&info.sender, id) {
        Ok(v) => v,
        Err(e) => return Err(e),
    };
    proof {
        state.contracts.ledger.lemma_lookup_bounded(info.sender@, id, state.last_invoice_id);
    }
    let t = match cancel_terms(&c, &info.sender, env.time) {
        Ok(v) => v,
        Err(e) => return Err(e),
    };
    state.invoices.save(&t.contract.invoice.receiver, id, &t.contract.invoice);
    state.contracts.save(&info.sender, id, &t.contract);
    Ok(t.settlements)
}

/// What withdrawing does to the state, and what it returns.
pub open spec fn withdraw_outcome(pre: EscrowState, post: EscrowState, env: Env, info: MessageInfo, id: u64, r: Result<Vec<Settlement>, EscrowError>) -> bool {
    match lookup(pre.invoices.ledger.entries(info.sender@), id) {
        None => r.is_err() && r->Err_0 == EscrowError::NotFound && post == pre,
        Some(inv) => match lookup(pre.contracts.ledger.entries(inv.payer@), id) {
            None => r.is_err() && r->Err_0 == EscrowError::NotFound && post == pre,
            Some(c) => match withdraw_refusal(inv, c, info.sender@, env.time) {
                Some(e) => r.is_err() && r->Err_0 == e && post == pre,
                None => {
                    &&& r.is_ok()
                    &&& r->Ok_0@ == withdraw_settlements(inv, pre.admin.wallet)
                    &&& committed(pre, post, info.sender@, inv.payer@, id, withdrawn_contract(inv, c))
                },
            },
        },
    }
}

/// Withdraws the next payment of invoice `id` from the invoices of
/// `info.sender`, the receiver.
pub fn withdraw_payment(state: &mut EscrowState, env: &Env, info: &MessageInfo, id: u64) -> (r: Result<Vec<Settlement>, EscrowError>)
    requires
        old(state).wf(),
    ensures
        final(state).wf(),
        withdraw_outcome(*old(state), *final(state), *env, *info, id, r),
{
    let inv = match state.invoices.load_invoice(&info.sender, id) {
        Ok(v) => v,
        Err(e) => return Err(e),
    };
    proof {
        state.invoices.ledger.lemma_lookup_bounded(info.sender@, id, state.last_invoice_id);
    }
    let c = match state.contracts.load_contract(&inv.payer, id) {
        Ok(v) => v,
        Err(e) => return Err(e),
    };
    let t = match withdraw_terms(&inv, &c, &info.sender, &state.admin.wallet, env.time) {
        Ok(v) => v,
        Err(e) => return Err(e),
    };
    state.invoices.save(&info.sender, id, &t.contract.invoice);
    state.contracts.save(&inv.payer, id, &t.contract);
    Ok(t.settlements)
}

/// What handing over the admin role does to the state, and what it returns.
pub open spec fn admin_outcome(pre: EscrowState, post: EscrowState, info: MessageInfo, admin: String, admin_ok: bool, r: Result<(), EscrowError>) -> bool {
    if info.sender@ != pre.admin.wallet@ {
        r.is_err() && r->Err_0 == EscrowError::Unauthorized && post == pre
    } else if !admin_ok {
        r.is_err() && r->Err_0 == EscrowError::InvalidArgument && post == pre
    } else {
        &&& r.is_ok()
        &&& post.admin.wallet@ == admin@
        &&& post.invoices == pre.invoices
        &&& post.contracts == pre.contracts
        &&& post.last_invoice_id == pre.last_invoice_id
    }
}

/// Whether `caller` may hand the admin role from `current` to an identity on
/// which the host's verdict is `new_ok`.
pub fn authorize_handover(caller: &String, current: &String, new_ok: bool) -> (r: Result<(), EscrowError>)
    ensures
        caller@ != current@ ==> r.is_err() && r->Err_0 == EscrowError::Unauthorized,
        caller@ == current@ && !new_ok ==> r.is_err() && r->Err_0 == EscrowError::InvalidArgument,
        caller@ == current@ && new_ok ==> r.is_ok(),
{
    if !(*caller == *current) {
        return Err(EscrowError::Unauthorized);
    }
    if !new_ok {
        return Err(EscrowError::InvalidArgument);
    }
    Ok(())
}

/// Hands the admin role to `admin`; only the current admin may, and
/// `admin_ok` is the host's verdict on `admin` as an identity.
pub fn admin_change_admin(state: &mut EscrowState, info: &MessageInfo, admin: String, admin_ok: bool) -> (r: Result<(), EscrowError>)
    requires
        old(state).wf(),
    ensures
        final(state).wf(),
        admin_outcome(*old(state), *final(state), *info, admin, admin_ok, r),
{
    match authorize_handover(&info.sender, &state.admin.wallet, admin_ok) {
        Ok(()) => {},
        Err(e) => return Err(e),
    }
    state.admin.update_admin_wallet(&admin);
    Ok(())
}

} // verus!
