//! Records kept by the engine: invoices, contracts and their lifecycle tags.
use vstd::prelude::*;
use crate::error::EscrowError;
use crate::ledger::{clamp_count, lookup, page_of, put, Ledger};

verus! {

/// A denomination: a native coin, or a token contract.
#[derive(Debug, Clone)]
pub enum Token {
    Snip20 { address: String, hash: String },
    Native(String),
}

impl Record for Token {
    fn duplicate(&self) -> (r: Token) {
        match self {
            Token::Snip20 { address, hash } => Token::Snip20 {
                address: address.clone(),
                hash: hash.clone(),
            },
            Token::Native(denom) => Token::Native(denom.clone()),
        }
    }
}

/// Where an invoice stands.
#[derive(Debug, Clone, Copy, PartialEq, Eq, Structural)]
pub enum Status {
    NotStarted,
    Accepted,
    Done,
    Stop,
}

/// What the receiver is still owed.
#[derive(Debug, Clone, Copy, PartialEq, Eq, Structural)]
pub enum Condition {
    No,
    PayFull,
    Half,
}

/// Where the custody of a contract stands.
#[derive(Debug, Clone, Copy, PartialEq, Eq, Structural)]
pub enum Process {
    NotStarted,
    Started,
    Done,
    Stop,
}

/// The terms of a payment obligation and their lifecycle fields.
#[derive(Debug, Clone)]
pub struct Invoice {
    pub invoice_id: u64,
    pub receiver: String,
    pub purpose: String,
    /// Face value of one installment.
    pub amount: u128,
    /// Fee per installment owed to the admin, paid on top by the payer.
    pub admin_charges: u128,
    /// Fee per installment withheld from the receiver's payout.
    pub customer_charges: u128,
    pub payer: String,
    pub days: u64,
    pub recurrent: bool,
    pub recurrent_times: u64,
    pub remaining_time_of_payment: u64,
    pub status: Status,
    pub payment_time: u64,
    pub critical_time: u64,
    pub payment_condition: Condition,
    pub token: Token,
}

/// The custody record of one invoice, keyed under its payer.
#[derive(Debug, Clone)]
pub struct Contract {
    pub invoice_id: u64,
    pub account_balance: u128,
    pub contract_process: Process,
    pub invoice: Invoice,
    pub contract_accepted: bool,
}

/// A record that can be copied with its value known.
pub trait Record: Sized {
    fn duplicate(&self) -> (r: Self)
        ensures
            r == *self,
    ;
}

impl Record for Invoice {
    fn duplicate(&self) -> (r: Invoice) {
        Invoice {
            invoice_id: self.invoice_id,
            receiver: self.receiver.clone(),
            purpose: self.purpose.clone(),
            amount: self.amount,
            admin_charges: self.admin_charges,
            customer_charges: self.customer_charges,
            payer: self.payer.clone(),
            days: self.days,
            recurrent: self.recurrent,
            recurrent_times: self.recurrent_times,
            remaining_time_of_payment: self.remaining_time_of_payment,
            status: self.status,
            payment_time: self.payment_time,
            critical_time: self.critical_time,
            payment_condition: self.payment_condition,
            token: self.token.duplicate(),
        }
    }
}

impl Record for Contract {
    fn duplicate(&self) -> (r: Contract) {
        Contract {
            invoice_id: self.invoice_id,
            account_balance: self.account_balance,
            contract_process: self.contract_process,
            invoice: self.invoice.duplicate(),
            contract_accepted: self.contract_accepted,
        }
    }
}

} // verus!

verus! {

/// The single slot holding the admin identity; empty until initialized.
pub struct AdminStore {
    pub wallet: String,
}

impl AdminStore {
    pub fn new() -> (r: AdminStore)
        ensures
            r.wallet@ == Seq::<char>::empty(),
    {
        AdminStore { wallet: String::new() }
    }

    pub fn save_admin_wallet(&mut self, wallet_address: &String)
        ensures
            final(self).wallet@ == wallet_address@,
    {
        self.wallet = wallet_address.clone();
    }

    /// The admin identity, empty if unset.
    pub fn get_admin_wallet(&self) -> (r: String)
        ensures
            r@ == self.wallet@,
    {
        self.wallet.clone()
    }

    pub fn update_admin_wallet(&mut self, new_wallet_address: &String)
        ensures
            final(self).wallet@ == new_wallet_address@,
    {
        self.wallet = new_wallet_address.clone();
    }
}

/// Invoices, namespaced by receiver.
pub struct InvoiceStore {
    pub ledger: Ledger<Invoice>,
}

impl InvoiceStore {
    pub fn new() -> (r: InvoiceStore)
        ensures
            r.ledger.wf(),
            forall|o: Seq<char>| #[trigger] r.ledger.entries(o) == Seq::<(u64, Invoice)>::empty(),
            forall|b: u64| r.ledger.ids_at_most(b),
    {
        InvoiceStore { ledger: Ledger::new() }
    }

    pub fn load_invoice(&self, owner: &String, id: u64) -> (r: Result<Invoice, EscrowError>)
        requires
            self.ledger.wf(),
        ensures
            r == match lookup(self.ledger.entries(owner@), id) {
                Some(v) => Ok::<Invoice, EscrowError>(v),
                None => Err(EscrowError::NotFound),
            },
    {
        match self.ledger.get(owner, id) {
            Some(v) => Ok(v),
            None => Err(EscrowError::NotFound),
        }
    }

    pub fn save(&mut self, owner: &String, id: u64, invoice: &Invoice)
        requires
            old(self).ledger.wf(),
        ensures
            final(self).ledger.wf(),
            final(self).ledger.entries(owner@) == put(old(self).ledger.entries(owner@), id, *invoice),
            forall|o: Seq<char>| o != owner@ ==> #[trigger] final(self).ledger.entries(o) == old(self).ledger.entries(o),
            forall|b: u64| old(self).ledger.ids_at_most(b) && id <= b ==> #[trigger] final(self).ledger.ids_at_most(b),
    {
        self.ledger.save(owner, id, invoice.duplicate());
    }

    /// Page `page` (from zero) of the invoices of `owner`; a page past the end is empty.
    pub fn paging_invoice_list(&self, owner: &String, page: u32, page_size: u32) -> (r: Result<Vec<(u64, Invoice)>, EscrowError>)
        requires
            self.ledger.wf(),
        ensures
            page_size == 0 ==> r == Err::<Vec<(u64, Invoice)>, EscrowError>(EscrowError::InvalidArgument),
            page_size > 0 ==> r.is_ok() && r.unwrap()@ == page_of(self.ledger.entries(owner@), page as int, page_size as int),
    {
        if page_size == 0 {
            return Err(EscrowError::InvalidArgument);
        }
        Ok(self.ledger.page(owner, page, page_size))
    }

    pub fn num_invoice(&self, owner: &String) -> (r: u32)
        requires
            self.ledger.wf(),
        ensures
            r == clamp_count(self.ledger.entries(owner@).len()),
    {
        self.ledger.count(owner)
    }
}

/// Contracts, namespaced by payer.
pub struct ContractStore {
    pub ledger: Ledger<Contract>,
}

impl ContractStore {
    pub fn new() -> (r: ContractStore)
        ensures
            r.ledger.wf(),
            forall|o: Seq<char>| #[trigger] r.ledger.entries(o) == Seq::<(u64, Contract)>::empty(),
            forall|b: u64| r.ledger.ids_at_most(b),
    {
        ContractStore { ledger: Ledger::new() }
    }

    pub fn save(&mut self, payer: &String, id: u64, contract: &Contract)
        requires
            old(self).ledger.wf(),
        ensures
            final(self).ledger.wf(),
            final(self).ledger.entries(payer@) == put(old(self).ledger.entries(payer@), id, *contract),
            forall|o: Seq<char>| o != payer@ ==> #[trigger] final(self).ledger.entries(o) == old(self).ledger.entries(o),
            forall|b: u64| old(self).ledger.ids_at_most(b) && id <= b ==> #[trigger] final(self).ledger.ids_at_most(b),
    {
        self.ledger.save(payer, id, contract.duplicate());
    }

    pub fn load_contract(&self, payer: &String, id: u64) -> (r: Result<Contract, EscrowError>)
        requires
            self.ledger.wf(),
        ensures
            r == match lookup(self.ledger.entries(payer@), id) {
                Some(v) => Ok::<Contract, EscrowError>(v),
                None => Err(EscrowError::NotFound),
            },
    {
        match self.ledger.get(payer, id) {
            Some(v) => Ok(v),
            None => Err(EscrowError::NotFound),
        }
    }

    /// Page `page` (from zero) of the contracts of `payer`; a page past the end is empty.
    pub fn paging_contract_list(&self, payer: &String, page: u32, page_size: u32) -> (r: Result<Vec<(u64, Contract)>, EscrowError>)
        requires
            self.ledger.wf(),
        ensures
            page_size == 0 ==> r == Err::<Vec<(u64, Contract)>, EscrowError>(EscrowError::InvalidArgument),
            page_size > 0 ==> r.is_ok() && r.unwrap()@ == page_of(self.ledger.entries(payer@), page as int, page_size as int),
    {
        if page_size == 0 {
            return Err(EscrowError::InvalidArgument);
        }
        Ok(self.ledger.page(payer, page, page_size))
    }

    pub fn num_contract(&self, payer: &String) -> (r: u32)
        requires
            self.ledger.wf(),
        ensures
            r == clamp_count(self.ledger.entries(payer@).len()),
    {
        self.ledger.count(payer)
    }
}

/// Everything the engine keeps between calls.
pub struct EscrowState {
    pub admin: AdminStore,
    pub invoices: InvoiceStore,
    pub contracts: ContractStore,
    /// The last invoice id issued; zero before the first.
    pub last_invoice_id: u64,
}

impl EscrowState {
    pub open spec fn wf(self) -> bool {
        &&& self.invoices.ledger.wf()
        &&& self.contracts.ledger.wf()
        &&& self.invoices.ledger.ids_at_most(self.last_invoice_id)
        &&& self.contracts.ledger.ids_at_most(self.last_invoice_id)
    }
}

/// The id that follows `last` (zero before the first issue).
pub fn next_invoice_id(last: u64) -> (r: Result<u64, EscrowError>)
    ensures
        last == u64::MAX ==> r.is_err() && r->Err_0 == EscrowError::IdSpaceExhausted,
        last < u64::MAX ==> r.is_ok() && r->Ok_0 == last + 1,
{
    if last == u64::MAX {
        return Err(EscrowError::IdSpaceExhausted);
    }
    Ok(last + 1)
}

/// Issues the next invoice id: one past the last, starting from one.
pub fn get_next_invoice_id(state: &mut EscrowState) -> (r: Result<u64, EscrowError>)
    ensures
        old(state).last_invoice_id == u64::MAX ==> r.is_err() && r->Err_0 == EscrowError::IdSpaceExhausted
            && *final(state) == *old(state),
        old(state).last_invoice_id < u64::MAX ==> r.is_ok() && r->Ok_0 == old(state).last_invoice_id + 1
            && final(state).last_invoice_id == old(state).last_invoice_id + 1
            && final(state).admin == old(state).admin
            && final(state).invoices == old(state).invoices
            && final(state).contracts == old(state).contracts,
{
    let id = match next_invoice_id(state.last_invoice_id) {
        Ok(v) => v,
        Err(e) => return Err(e),
    };
    state.last_invoice_id = id;
    Ok(id)
}

} // verus!
