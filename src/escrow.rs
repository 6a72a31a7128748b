//! The transitions of one invoice's custody record: what accepting,
//! canceling and withdrawing require, what they leave behind, and which
//! settlement instructions they emit.
use vstd::prelude::*;
use crate::error::{EscrowError, StateIssue};
use crate::state::{Condition, Contract, Invoice, Process, Record, Status};

verus! {

/// Seconds in a day.
pub const DAY_SECONDS: u64 = 86400;

/// Value attached to a command.
#[derive(Debug, Clone)]
pub struct Coin {
    pub denom: String,
    pub amount: u128,
}

/// An instruction to move `amount` out of escrow to `recipient`.
#[derive(Debug, Clone)]
pub struct Settlement {
    pub recipient: String,
    pub amount: u128,
}

/// A contract after a transition, with the settlements it emits.
pub struct Transition {
    pub contract: Contract,
    pub settlements: Vec<Settlement>,
}

/// The sum of the attached amounts.
pub open spec fn funds_total(f: Seq<Coin>) -> int
    decreases f.len(),
{
    if f.len() == 0 {
        0
    } else {
        funds_total(f.drop_last()) + f.last().amount
    }
}

proof fn lemma_funds_total_prefix(f: Seq<Coin>, k: int)
    requires
        0 <= k <= f.len(),
    ensures
        funds_total(f.subrange(0, k)) <= funds_total(f),
    decreases f.len(),
{
    if k < f.len() {
        assert(f.drop_last() =~= f.subrange(0, f.len() - 1));
        assert(f.drop_last().subrange(0, k) =~= f.subrange(0, k));
        lemma_funds_total_prefix(f.drop_last(), k);
    } else {
        assert(f.subrange(0, k) =~= f);
    }
}

/// The total attached, or `None` where it exceeds `u128`.
pub fn total_funds(funds: &Vec<Coin>) -> (r: Option<u128>)
    ensures
        match r {
            Some(v) => v == funds_total(funds@),
            None => funds_total(funds@) > u128::MAX,
        },
{
    let mut acc: u128 = 0;
    let mut k: usize = 0;
    while k < funds.len()
        invariant
            k <= funds@.len(),
            acc == funds_total(funds@.subrange(0, k as int)),
        decreases funds@.len() - k,
    {
        assert(funds@.subrange(0, k + 1).drop_last() =~= funds@.subrange(0, k as int));
        match acc.checked_add(funds[k].amount) {
            Some(v) => {
                acc = v;
            },
            None => {
                proof { lemma_funds_total_prefix(funds@, k + 1); }
                return None;
            },
        }
        k = k + 1;
    }
    assert(funds@.subrange(0, k as int) =~= funds@);
    Some(acc)
}

/// What the payer must attach to accept `inv`.
pub open spec fn required_total(inv: Invoice) -> int {
    if inv.recurrent {
        (inv.amount + inv.admin_charges) * inv.recurrent_times
    } else {
        inv.amount + inv.admin_charges
    }
}

/// The admin's share taken at acceptance.
pub open spec fn admin_cut(inv: Invoice) -> int {
    if inv.recurrent {
        inv.admin_charges * inv.recurrent_times
    } else {
        inv.admin_charges as int
    }
}

/// Why accepting `c` is refused, if it is.
pub open spec fn accept_refusal(c: Contract, caller: Seq<char>, paid: int, now: u64) -> Option<EscrowError> {
    if caller != c.invoice.payer@ {
        Some(EscrowError::Unauthorized)
    } else if c.contract_accepted {
        Some(EscrowError::InvalidState(StateIssue::AlreadyAccepted))
    } else if paid < required_total(c.invoice) || paid == 0 {
        Some(EscrowError::InsufficientFunds)
    } else if now + c.invoice.days * DAY_SECONDS > u64::MAX {
        Some(EscrowError::InvalidArgument)
    } else {
        None
    }
}

/// `c` once accepted at `now` with `paid` attached.
pub open spec fn accepted_contract(c: Contract, paid: int, now: u64) -> Contract {
    Contract {
        account_balance: (paid - admin_cut(c.invoice)) as u128,
        contract_process: Process::Started,
        contract_accepted: true,
        invoice: Invoice {
            payment_time: (now + c.invoice.days * DAY_SECONDS) as u64,
            critical_time: (now + (c.invoice.days * DAY_SECONDS) / 2) as u64,
            payment_condition: Condition::PayFull,
            status: Status::Accepted,
            remaining_time_of_payment: if c.invoice.recurrent { c.invoice.recurrent_times } else { 1 },
            ..c.invoice
        },
        ..c
    }
}

/// Accepts `c` on behalf of `caller`, who attaches `funds`; the admin cut
/// goes to `admin`.
pub fn accept_terms(c: &Contract, caller: &String, funds: &Vec<Coin>, admin: &String, now: u64) -> (r: Result<Transition, EscrowError>)
    requires
        funds_total(funds@) <= u128::MAX,
    ensures
        match accept_refusal(*c, caller@, funds_total(funds@), now) {
            Some(e) => r.is_err() && r->Err_0 == e,
            None => r.is_ok()
                && r->Ok_0.contract == accepted_contract(*c, funds_total(funds@), now)
                && r->Ok_0.settlements@ == seq![(Settlement { recipient: *admin, amount: admin_cut(c.invoice) as u128 })],
        },
{
    let inv = &c.invoice;
    if !(*caller == inv.payer) {
        return Err(EscrowError::Unauthorized);
    }
    if c.contract_accepted {
        return Err(EscrowError::InvalidState(StateIssue::AlreadyAccepted));
    }
    let paid = match total_funds(funds) {
        Some(v) => v,
        None => return Err(EscrowError::InsufficientFunds),
    };
    let due: u128;
    let cut: u128;
    if inv.recurrent {
        let times = inv.recurrent_times as u128;
        if times == 0 {
            due = 0;
            cut = 0;
        } else {
            let per = match inv.amount.checked_add(inv.admin_charges) {
                Some(v) => v,
                None => {
                    assert((inv.amount + inv.admin_charges) * times >= inv.amount + inv.admin_charges) by (nonlinear_arith)
                        requires times >= 1, inv.amount + inv.admin_charges >= 0;
                    return Err(EscrowError::InsufficientFunds);
                },
            };
            due = match per.checked_mul(times) {
                Some(v) => v,
                None => return Err(EscrowError::InsufficientFunds),
            };
            assert(inv.admin_charges * times <= per * times) by (nonlinear_arith)
                requires inv.admin_charges <= per, times >= 0;
            cut = inv.admin_charges * times;
            assert(due == (inv.amount + inv.admin_charges) * inv.recurrent_times);
        }
    } else {
        due = match inv.amount.checked_add(inv.admin_charges) {
            Some(v) => v,
            None => return Err(EscrowError::InsufficientFunds),
        };
        cut = inv.admin_charges;
    }
    assert(due == required_total(c.invoice) && cut == admin_cut(c.invoice)) by (nonlinear_arith)
        requires
            inv.recurrent ==> (inv.recurrent_times == 0 && due == 0 && cut == 0) || (due == (inv.amount + inv.admin_charges) * inv.recurrent_times && cut == inv.admin_charges * inv.recurrent_times),
            !inv.recurrent ==> due == inv.amount + inv.admin_charges && cut == inv.admin_charges,
            inv == c.invoice;
    if paid < due || paid == 0 {
        return Err(EscrowError::InsufficientFunds);
    }
    let span = match inv.days.checked_mul(DAY_SECONDS) {
        Some(v) => v,
        None => {
            assert(now + inv.days * DAY_SECONDS > u64::MAX);
            return Err(EscrowError::InvalidArgument);
        },
    };
    assert(span == inv.days * DAY_SECONDS);
    let payment_time = match now.checked_add(span) {
        Some(v) => v,
        None => {
            assert(now + inv.days * DAY_SECONDS > u64::MAX);
            return Err(EscrowError::InvalidArgument);
        },
    };
    let critical_time = now + span / 2;
    let mut contract = c.duplicate();
    contract.invoice.payment_time = payment_time;
    contract.invoice.critical_time = critical_time;
    contract.invoice.payment_condition = Condition::PayFull;
    contract.invoice.status = Status::Accepted;
    contract.invoice.remaining_time_of_payment = if inv.recurrent { inv.recurrent_times } else { 1 };
    contract.account_balance = paid - cut;
    contract.contract_accepted = true;
    contract.contract_process = Process::Started;
    let settlements = vec![Settlement { recipient: admin.clone(), amount: cut }];
    Ok(Transition { contract, settlements })
}

/// Why canceling `c` at `now` is refused, if it is.
pub open spec fn cancel_refusal(c: Contract, caller: Seq<char>, now: u64) -> Option<EscrowError> {
    if caller != c.invoice.payer@ {
        Some(EscrowError::Unauthorized)
    } else if !c.contract_accepted {
        Some(EscrowError::InvalidState(StateIssue::NotAccepted))
    } else if c.contract_process == Process::Done {
        Some(EscrowError::InvalidState(StateIssue::AlreadyDone))
    } else if c.contract_process == Process::Stop {
        Some(EscrowError::InvalidState(StateIssue::AlreadyStopped))
    } else if c.invoice.critical_time > now && c.account_balance < c.invoice.amount / 2 {
        Some(EscrowError::NothingReserved)
    } else {
        None
    }
}

/// `c` once canceled at `now`: before the critical time the receiver keeps
/// half of one installment, from it on nothing.
pub open spec fn canceled_contract(c: Contract, now: u64) -> Contract {
    if c.invoice.critical_time > now {
        Contract {
            contract_process: Process::Stop,
            account_balance: c.invoice.amount / 2,
            invoice: Invoice {
                payment_condition: Condition::Half,
                amount: c.invoice.amount / 2,
                status: Status::Stop,
                remaining_time_of_payment: 1,
                ..c.invoice
            },
            ..c
        }
    } else {
        Contract {
            contract_process: Process::Stop,
            account_balance: 0,
            invoice: Invoice {
                payment_condition: Condition::No,
                amount: 0,
                status: Status::Stop,
                remaining_time_of_payment: 0,
                ..c.invoice
            },
            ..c
        }
    }
}

/// What canceling `c` at `now` returns to the payer.
pub open spec fn cancel_refund(c: Contract, now: u64) -> u128 {
    if c.invoice.critical_time > now {
        (c.account_balance - c.invoice.amount / 2) as u128
    } else {
        c.account_balance
    }
}

/// Cancels `c` on behalf of `caller` at `now`, refunding the payer.
pub fn cancel_terms(c: &Contract, caller: &String, now: u64) -> (r: Result<Transition, EscrowError>)
    ensures
        match cancel_refusal(*c, caller@, now) {
            Some(e) => r.is_err() && r->Err_0 == e,
            None => r.is_ok()
                && r->Ok_0.contract == canceled_contract(*c, now)
                && r->Ok_0.settlements@ == seq![(Settlement { recipient: c.invoice.payer, amount: cancel_refund(*c, now) })],
        },
{
    if !(*caller == c.invoice.payer) {
        return Err(EscrowError::Unauthorized);
    }
    if !c.contract_accepted {
        return Err(EscrowError::InvalidState(StateIssue::NotAccepted));
    }
    if c.contract_process == Process::Done {
        return Err(EscrowError::InvalidState(StateIssue::AlreadyDone));
    }
    if c.contract_process == Process::Stop {
        return Err(EscrowError::InvalidState(StateIssue::AlreadyStopped));
    }
    let mut contract = c.duplicate();
    let refund: u128;
    if c.invoice.critical_time > now {
        let half = c.invoice.amount / 2;
        if c.account_balance < half {
            return Err(EscrowError::NothingReserved);
        }
        refund = c.account_balance - half;
        contract.invoice.payment_condition = Condition::Half;
        contract.invoice.amount = half;
        contract.invoice.remaining_time_of_payment = 1;
        contract.account_balance = half;
    } else {
        refund = c.account_balance;
        contract.invoice.payment_condition = Condition::No;
        contract.invoice.amount = 0;
        contract.invoice.remaining_time_of_payment = 0;
        contract.account_balance = 0;
    }
    contract.invoice.status = Status::Stop;
    contract.contract_process = Process::Stop;
    let settlements = vec![Settlement { recipient: c.invoice.payer.clone(), amount: refund }];
    Ok(Transition { contract, settlements })
}

/// Why withdrawing on `inv` (the receiver's copy) and `c` at `now` is
/// refused, if it is.
pub open spec fn withdraw_refusal(inv: Invoice, c: Contract, caller: Seq<char>, now: u64) -> Option<EscrowError> {
    if caller != inv.receiver@ {
        Some(EscrowError::Unauthorized)
    } else if !c.contract_accepted {
        Some(EscrowError::InvalidState(StateIssue::NotAccepted))
    } else if now < inv.payment_time {
        Some(EscrowError::TooEarly)
    } else if inv.remaining_time_of_payment == 0 {
        Some(EscrowError::AlreadySettled)
    } else if inv.payment_condition == Condition::No {
        Some(EscrowError::Canceled)
    } else if c.account_balance < 1 || c.account_balance < inv.amount {
        Some(EscrowError::NothingReserved)
    } else if inv.amount < inv.customer_charges {
        Some(EscrowError::InvalidState(StateIssue::ChargeExceedsAmount))
    } else {
        None
    }
}

/// The invoice after one withdrawal: the last one after a cancellation,
/// else one installment.
pub open spec fn withdrawn_invoice(inv: Invoice) -> Invoice {
    if inv.payment_condition == Condition::Half {
        Invoice { status: Status::Done, remaining_time_of_payment: 0, ..inv }
    } else {
        Invoice {
            remaining_time_of_payment: if inv.recurrent { (inv.remaining_time_of_payment - 1) as u64 } else { 0 },
            ..inv
        }
    }
}

pub open spec fn withdrawn_contract(inv: Invoice, c: Contract) -> Contract {
    Contract {
        account_balance: if inv.payment_condition == Condition::Half {
            0
        } else {
            (c.account_balance - inv.amount) as u128
        },
        invoice: withdrawn_invoice(inv),
        ..c
    }
}

/// The payout to the receiver, then the charge to the admin.
pub open spec fn withdraw_settlements(inv: Invoice, admin: String) -> Seq<Settlement> {
    seq![
        Settlement { recipient: inv.receiver, amount: (inv.amount - inv.customer_charges) as u128 },
        Settlement { recipient: admin, amount: inv.customer_charges },
    ]
}

/// Pays out one installment of `inv` from `c` to `caller`, the receiver,
/// and its charge to `admin`.
pub fn withdraw_terms(inv: &Invoice, c: &Contract, caller: &String, admin: &String, now: u64) -> (r: Result<Transition, EscrowError>)
    ensures
        match withdraw_refusal(*inv, *c, caller@, now) {
            Some(e) => r.is_err() && r->Err_0 == e,
            None => r.is_ok()
                && r->Ok_0.contract == withdrawn_contract(*inv, *c)
                && r->Ok_0.settlements@ == withdraw_settlements(*inv, *admin),
        },
{
    if !(*caller == inv.receiver) {
        return Err(EscrowError::Unauthorized);
    }
    if !c.contract_accepted {
        return Err(EscrowError::InvalidState(StateIssue::NotAccepted));
    }
    if now < inv.payment_time {
        return Err(EscrowError::TooEarly);
    }
    if inv.remaining_time_of_payment == 0 {
        return Err(EscrowError::AlreadySettled);
    }
    if inv.payment_condition == Condition::No {
        return Err(EscrowError::Canceled);
    }
    if c.account_balance < 1 || c.account_balance < inv.amount {
        return Err(EscrowError::NothingReserved);
    }
    if inv.amount < inv.customer_charges {
        return Err(EscrowError::InvalidState(StateIssue::ChargeExceedsAmount));
    }
    let mut invoice = inv.duplicate();
    let balance: u128;
    if inv.payment_condition == Condition::Half {
        invoice.status = Status::Done;
        invoice.remaining_time_of_payment = 0;
        balance = 0;
    } else {
        invoice.remaining_time_of_payment = if inv.recurrent { inv.remaining_time_of_payment - 1 } else { 0 };
        balance = c.account_balance - inv.amount;
    }
    let payout = inv.amount - inv.customer_charges;
    let settlements = vec![
        Settlement { recipient: inv.receiver.clone(), amount: payout },
        Settlement { recipient: admin.clone(), amount: inv.customer_charges },
    ];
    let contract = Contract {
        invoice_id: c.invoice_id,
        account_balance: balance,
        contract_process: c.contract_process,
        invoice,
        contract_accepted: c.contract_accepted,
    };
    Ok(Transition { contract, settlements })
}

} // verus!
