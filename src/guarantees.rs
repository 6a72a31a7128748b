//! Laws of the engine that span several calls or every input.
use vstd::prelude::*;
use crate::error::{EscrowError, StateIssue};
use crate::escrow::{
    accept_refusal, accepted_contract, cancel_refusal, canceled_contract, funds_total,
    required_total, withdraw_refusal, withdrawn_invoice, Settlement,
};
use crate::execute::{accept_outcome, admin_outcome, cancel_outcome, create_outcome, create_refusal};
use crate::ledger::{clamp_count, holds_id, lemma_lookup_put, lookup};
use crate::msg::{Env, MessageInfo};
use crate::state::{Condition, Contract, EscrowState, Invoice, Process, Token};

verus! {

/// Creating an invoice adds exactly one record to the creator's invoices and
/// one to the payer's contracts, under an id above every id issued before.
pub proof fn create_adds_one_record(
    pre: EscrowState,
    post: EscrowState,
    info: MessageInfo,
    purpose: String,
    amount: u128,
    admin_charge: u128,
    customer_charge: u128,
    payer: String,
    payer_ok: bool,
    days: u64,
    recurrent_time: Option<u64>,
    token: Token,
    r: Result<u64, EscrowError>,
)
    requires
        pre.wf(),
        create_refusal(admin_charge, customer_charge, payer_ok, pre.last_invoice_id).is_none(),
        create_outcome(pre, post, info, purpose, amount, admin_charge, customer_charge, payer, payer_ok, days, recurrent_time, token, r),
    ensures
        r.is_ok(),
        post.invoices.ledger.entries(info.sender@).len() == pre.invoices.ledger.entries(info.sender@).len() + 1,
        post.contracts.ledger.entries(payer@).len() == pre.contracts.ledger.entries(payer@).len() + 1,
        pre.invoices.ledger.entries(info.sender@).len() < u32::MAX ==>
            clamp_count(post.invoices.ledger.entries(info.sender@).len())
                == clamp_count(pre.invoices.ledger.entries(info.sender@).len()) + 1,
        forall|o: Seq<char>, k: int| 0 <= k < pre.invoices.ledger.entries(o).len()
            ==> #[trigger] pre.invoices.ledger.entries(o)[k].0 < r->Ok_0,
        forall|o: Seq<char>, k: int| 0 <= k < pre.contracts.ledger.entries(o).len()
            ==> #[trigger] pre.contracts.ledger.entries(o)[k].0 < r->Ok_0,
{
    let id = r->Ok_0;
    assert forall|o: Seq<char>, k: int| 0 <= k < pre.invoices.ledger.entries(o).len()
        implies #[trigger] pre.invoices.ledger.entries(o)[k].0 < id by {
        pre.invoices.ledger.lemma_entries_bounded(o, pre.last_invoice_id);
    }
    assert forall|o: Seq<char>, k: int| 0 <= k < pre.contracts.ledger.entries(o).len()
        implies #[trigger] pre.contracts.ledger.entries(o)[k].0 < id by {
        pre.contracts.ledger.lemma_entries_bounded(o, pre.last_invoice_id);
    }
    let si = pre.invoices.ledger.entries(info.sender@);
    if holds_id(si, id) {
        let k = choose|k: int| 0 <= k < si.len() && si[k].0 == id;
        assert(si[k].0 < id);
    }
    let sc = pre.contracts.ledger.entries(payer@);
    if holds_id(sc, id) {
        let k = choose|k: int| 0 <= k < sc.len() && sc[k].0 == id;
        assert(sc[k].0 < id);
    }
}

/// Accepting is refused for want of funds whenever the payer attaches less
/// than the required total.
pub proof fn accept_needs_required_total(c: Contract, caller: Seq<char>, paid: int, now: u64)
    requires
        caller == c.invoice.payer@,
        !c.contract_accepted,
        paid < required_total(c.invoice),
    ensures
        accept_refusal(c, caller, paid, now) == Some(EscrowError::InsufficientFunds),
{
}

/// A successful acceptance leaves the contract accepted and started, and a
/// second acceptance of the same id by the same caller is refused as
/// already accepted, changing nothing.
pub proof fn accept_only_once(
    s0: EscrowState,
    s1: EscrowState,
    s2: EscrowState,
    env1: Env,
    env2: Env,
    info1: MessageInfo,
    info2: MessageInfo,
    id: u64,
    r1: Result<Vec<Settlement>, EscrowError>,
    r2: Result<Vec<Settlement>, EscrowError>,
)
    requires
        s0.wf(),
        accept_outcome(s0, s1, env1, info1, id, r1),
        r1.is_ok(),
        info2.sender@ == info1.sender@,
        accept_outcome(s1, s2, env2, info2, id, r2),
    ensures
        lookup(s1.contracts.ledger.entries(info1.sender@), id) is Some,
        lookup(s1.contracts.ledger.entries(info1.sender@), id)->0.contract_accepted,
        lookup(s1.contracts.ledger.entries(info1.sender@), id)->0.contract_process == Process::Started,
        r2.is_err(),
        r2->Err_0 == EscrowError::InvalidState(StateIssue::AlreadyAccepted),
        s2 == s1,
{
    let c = lookup(s0.contracts.ledger.entries(info1.sender@), id)->0;
    let n = accepted_contract(c, funds_total(info1.funds@), env1.time);
    s0.contracts.ledger.lemma_entries_wf(info1.sender@);
    lemma_lookup_put(s0.contracts.ledger.entries(info1.sender@), id, n);
}

/// Canceling before the critical time leaves half of one installment in
/// escrow, owed to the receiver; from the critical time on it leaves nothing.
pub proof fn cancel_splits_at_critical_time(c: Contract, caller: Seq<char>, now: u64)
    requires
        cancel_refusal(c, caller, now).is_none(),
    ensures
        c.invoice.critical_time > now ==> canceled_contract(c, now).account_balance == c.invoice.amount / 2
            && canceled_contract(c, now).invoice.payment_condition == Condition::Half,
        c.invoice.critical_time <= now ==> canceled_contract(c, now).account_balance == 0
            && canceled_contract(c, now).invoice.payment_condition == Condition::No,
        canceled_contract(c, now).contract_process == Process::Stop,
{
}

/// After a successful cancellation, canceling the same id again is refused
/// as already stopped, changing nothing.
pub proof fn cancel_only_once(
    s0: EscrowState,
    s1: EscrowState,
    s2: EscrowState,
    env1: Env,
    env2: Env,
    info1: MessageInfo,
    info2: MessageInfo,
    id: u64,
    r1: Result<Vec<Settlement>, EscrowError>,
    r2: Result<Vec<Settlement>, EscrowError>,
)
    requires
        s0.wf(),
        cancel_outcome(s0, s1, env1, info1, id, r1),
        r1.is_ok(),
        info2.sender@ == info1.sender@,
        cancel_outcome(s1, s2, env2, info2, id, r2),
    ensures
        r2.is_err(),
        r2->Err_0 == EscrowError::InvalidState(StateIssue::AlreadyStopped),
        s2 == s1,
{
    let c = lookup(s0.contracts.ledger.entries(info1.sender@), id)->0;
    let n = canceled_contract(c, env1.time);
    s0.contracts.ledger.lemma_entries_wf(info1.sender@);
    lemma_lookup_put(s0.contracts.ledger.entries(info1.sender@), id, n);
}

/// Before the payment time the receiver's withdrawal of an accepted contract
/// is refused as too early, whatever the balance or the condition.
pub proof fn withdraw_waits_for_payment_time(inv: Invoice, c: Contract, caller: Seq<char>, now: u64)
    requires
        caller == inv.receiver@,
        c.contract_accepted,
        now < inv.payment_time,
    ensures
        withdraw_refusal(inv, c, caller, now) == Some(EscrowError::TooEarly),
{
}

/// Each withdrawal from a recurrent invoice paid in full takes one
/// installment off what remains; once none remains, withdrawal is refused
/// as settled.
pub proof fn withdraw_counts_down(inv: Invoice, c: Contract, caller: Seq<char>, now: u64)
    requires
        inv.recurrent,
        inv.payment_condition == Condition::PayFull,
    ensures
        withdraw_refusal(inv, c, caller, now).is_none()
            ==> withdrawn_invoice(inv).remaining_time_of_payment == inv.remaining_time_of_payment - 1,
        caller == inv.receiver@ && c.contract_accepted && now >= inv.payment_time && inv.remaining_time_of_payment == 0
            ==> withdraw_refusal(inv, c, caller, now) == Some(EscrowError::AlreadySettled),
{
}

/// Only the current admin may hand over the role; after a handover the
/// registry holds the new identity, and the former admin, if different,
/// can no longer hand it over.
pub proof fn admin_handover(
    s0: EscrowState,
    s1: EscrowState,
    s2: EscrowState,
    info1: MessageInfo,
    info2: MessageInfo,
    admin1: String,
    admin2: String,
    ok1: bool,
    ok2: bool,
    r1: Result<(), EscrowError>,
    r2: Result<(), EscrowError>,
)
    requires
        admin_outcome(s0, s1, info1, admin1, ok1, r1),
        admin_outcome(s1, s2, info2, admin2, ok2, r2),
    ensures
        info1.sender@ != s0.admin.wallet@ ==> r1.is_err() && r1->Err_0 == EscrowError::Unauthorized,
        r1.is_ok() ==> s1.admin.wallet@ == admin1@,
        r1.is_ok() && info2.sender@ == s0.admin.wallet@ && admin1@ != s0.admin.wallet@
            ==> r2.is_err() && r2->Err_0 == EscrowError::Unauthorized,
{
}

} // verus!
