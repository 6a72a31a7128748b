use escrow_invoice::contract::{execute, instantiate, query};
use escrow_invoice::error::{EscrowError, StateIssue};
use escrow_invoice::escrow::{Coin, Settlement};
use escrow_invoice::msg::{Env, ExecuteMsg, InstantiateMsg, MessageInfo, QueryAnswer, QueryMsg};
use escrow_invoice::state::{Condition, Contract, EscrowState, Invoice, Process, Status, Token};

const PAYER: &str = "secret1py4ryg3atyz5cru2m64p0mtga5y09q5a26pa7n";
const T0: u64 = 1571797419;

fn info(sender: &str, amount: u128) -> MessageInfo {
    MessageInfo {
        sender: sender.to_string(),
        funds: vec![Coin { denom: "uscrt".to_string(), amount }],
    }
}

fn env(time: u64) -> Env {
    Env { time }
}

fn submit(amount: u128, admin_charge: u128, customer_charge: u128, days: u64, recurrent_time: Option<u64>) -> ExecuteMsg {
    ExecuteMsg::SubmitInvoice {
        purpose: "building".to_string(),
        amount,
        admin_charge,
        customer_charge,
        payer: PAYER.to_string(),
        days,
        recurrent_time,
        token: Token::Native("uscrt".to_string()),
    }
}

fn setup() -> EscrowState {
    instantiate(&info("creator", 2), InstantiateMsg {})
}

fn invoice_count(state: &EscrowState, owner: &str) -> u32 {
    match query(state, QueryMsg::NumberOfInvoice { owner: owner.to_string() }) {
        Ok(QueryAnswer::Count(n)) => n,
        _ => panic!("count expected"),
    }
}

fn contract_of(state: &EscrowState, id: u64) -> Contract {
    match query(state, QueryMsg::SingleContract { id, payer: PAYER.to_string() }) {
        Ok(QueryAnswer::Contract(c)) => c,
        _ => panic!("contract expected"),
    }
}

fn invoice_of(state: &EscrowState, owner: &str, id: u64) -> Invoice {
    match query(state, QueryMsg::SingleInvoice { id, owner: owner.to_string() }) {
        Ok(QueryAnswer::Invoice(v)) => v,
        _ => panic!("invoice expected"),
    }
}

fn amounts(s: &[Settlement]) -> Vec<(String, u128)> {
    s.iter().map(|x| (x.recipient.clone(), x.amount)).collect()
}

#[test]
fn submit_invoice() {
    let mut state = setup();
    execute(&mut state, &env(T0), &info("anyone", 2), submit(3, 3, 3, 2, Some(2)), true).unwrap();
    assert_eq!(1, invoice_count(&state, "anyone"));
}

#[test]
fn accept_invoice() {
    let mut state = setup();
    execute(&mut state, &env(T0), &info("anyone", 2), submit(3, 3, 3, 2, None), true).unwrap();
    assert_eq!(1, invoice_count(&state, "anyone"));
    execute(&mut state, &env(T0), &info(PAYER, 6), ExecuteMsg::AcceptInvoice { id: 1 }, true).unwrap();
    let value = contract_of(&state, 1);
    assert_eq!(true, value.contract_accepted);
    assert_eq!(Process::Started, value.contract_process);
}

#[test]
fn cancel_payment() {
    let mut state = setup();
    execute(&mut state, &env(T0), &info("anyone", 2), submit(3, 3, 3, 2, None), true).unwrap();
    assert_eq!(1, invoice_count(&state, "anyone"));
    execute(&mut state, &env(T0), &info(PAYER, 6), ExecuteMsg::AcceptInvoice { id: 1 }, true).unwrap();
    let value = contract_of(&state, 1);
    assert_eq!(true, value.contract_accepted);
    assert_eq!(Process::Started, value.contract_process);
    // one day after acceptance: the critical time of a two-day invoice
    execute(&mut state, &env(T0 + 86400), &info(PAYER, 6), ExecuteMsg::CancelPayment { id: 1 }, true).unwrap();
    let value = contract_of(&state, 1);
    assert_eq!(0, value.account_balance);
    assert_eq!(Process::Stop, value.contract_process);
    assert_eq!(0, value.invoice.amount);
}

#[test]
fn create_counts_and_ids_increase() {
    let mut state = setup();
    for k in 1..=3u64 {
        execute(&mut state, &env(T0), &info("anyone", 0), submit(3, 3, 3, 2, None), true).unwrap();
        assert_eq!(k as u32, invoice_count(&state, "anyone"));
        assert_eq!(k, invoice_of(&state, "anyone", k).invoice_id);
    }
    match query(&state, QueryMsg::NumberOfContract { payer: PAYER.to_string() }) {
        Ok(QueryAnswer::Count(n)) => assert_eq!(3, n),
        _ => panic!("count expected"),
    }
    let inv = invoice_of(&state, "anyone", 2);
    assert_eq!(Status::NotStarted, inv.status);
    assert_eq!(Condition::No, inv.payment_condition);
    assert_eq!(0, inv.remaining_time_of_payment);
    assert_eq!(PAYER, inv.payer);
    assert_eq!("anyone", inv.receiver);
}

#[test]
fn create_rejects_bad_arguments() {
    let mut state = setup();
    let e = execute(&mut state, &env(T0), &info("anyone", 0), submit(3, 0, 3, 2, None), true);
    assert_eq!(Err(EscrowError::InvalidArgument), e.map(|_| ()));
    let e = execute(&mut state, &env(T0), &info("anyone", 0), submit(3, 3, 0, 2, None), true);
    assert_eq!(Err(EscrowError::InvalidArgument), e.map(|_| ()));
    let e = execute(&mut state, &env(T0), &info("anyone", 0), submit(3, 3, 3, 2, None), false);
    assert_eq!(Err(EscrowError::InvalidArgument), e.map(|_| ()));
    assert_eq!(0, invoice_count(&state, "anyone"));
    assert_eq!(0, state.last_invoice_id);
}

#[test]
fn accept_requires_total_and_happens_once() {
    let mut state = setup();
    execute(&mut state, &env(T0), &info("anyone", 0), submit(3, 3, 3, 2, None), true).unwrap();
    let e = execute(&mut state, &env(T0), &info(PAYER, 5), ExecuteMsg::AcceptInvoice { id: 1 }, true);
    assert_eq!(Err(EscrowError::InsufficientFunds), e.map(|_| ()));
    let s = execute(&mut state, &env(T0), &info(PAYER, 6), ExecuteMsg::AcceptInvoice { id: 1 }, true).unwrap();
    assert_eq!(vec![("creator".to_string(), 3u128)], amounts(&s));
    let e = execute(&mut state, &env(T0), &info(PAYER, 6), ExecuteMsg::AcceptInvoice { id: 1 }, true);
    assert_eq!(Err(EscrowError::InvalidState(StateIssue::AlreadyAccepted)), e.map(|_| ()));
    let c = contract_of(&state, 1);
    assert_eq!(3, c.account_balance);
    assert_eq!(T0 + 2 * 86400, c.invoice.payment_time);
    assert_eq!(T0 + 86400, c.invoice.critical_time);
    assert_eq!(Condition::PayFull, c.invoice.payment_condition);
    assert_eq!(Status::Accepted, c.invoice.status);
    assert_eq!(1, c.invoice.remaining_time_of_payment);
    assert_eq!(Status::Accepted, invoice_of(&state, "anyone", 1).status);
}

#[test]
fn accept_refuses_zero_funds_and_strangers() {
    let mut state = setup();
    execute(&mut state, &env(T0), &info("anyone", 0), submit(0, 1, 1, 2, Some(0)), true).unwrap();
    let e = execute(&mut state, &env(T0), &info(PAYER, 0), ExecuteMsg::AcceptInvoice { id: 1 }, true);
    assert_eq!(Err(EscrowError::InsufficientFunds), e.map(|_| ()));
    let e = execute(&mut state, &env(T0), &info("stranger", 9), ExecuteMsg::AcceptInvoice { id: 1 }, true);
    assert_eq!(Err(EscrowError::NotFound), e.map(|_| ()));
}

#[test]
fn cancel_before_critical_time_keeps_half() {
    let mut state = setup();
    execute(&mut state, &env(T0), &info("anyone", 0), submit(3, 3, 3, 2, None), true).unwrap();
    let e = execute(&mut state, &env(T0), &info(PAYER, 0), ExecuteMsg::CancelPayment { id: 1 }, true);
    assert_eq!(Err(EscrowError::InvalidState(StateIssue::NotAccepted)), e.map(|_| ()));
    execute(&mut state, &env(T0), &info(PAYER, 6), ExecuteMsg::AcceptInvoice { id: 1 }, true).unwrap();
    let s = execute(&mut state, &env(T0 + 10), &info(PAYER, 0), ExecuteMsg::CancelPayment { id: 1 }, true).unwrap();
    assert_eq!(vec![(PAYER.to_string(), 2u128)], amounts(&s));
    let c = contract_of(&state, 1);
    assert_eq!(1, c.account_balance);
    assert_eq!(Condition::Half, c.invoice.payment_condition);
    assert_eq!(1, c.invoice.amount);
    assert_eq!(1, c.invoice.remaining_time_of_payment);
    assert_eq!(Status::Stop, c.invoice.status);
    assert_eq!(Process::Stop, c.contract_process);
    let e = execute(&mut state, &env(T0 + 10), &info(PAYER, 0), ExecuteMsg::CancelPayment { id: 1 }, true);
    assert_eq!(Err(EscrowError::InvalidState(StateIssue::AlreadyStopped)), e.map(|_| ()));
}

#[test]
fn withdraw_after_half_cancel_pays_once() {
    let mut state = setup();
    execute(&mut state, &env(T0), &info("anyone", 0), submit(10, 1, 2, 2, None), true).unwrap();
    execute(&mut state, &env(T0), &info(PAYER, 11), ExecuteMsg::AcceptInvoice { id: 1 }, true).unwrap();
    execute(&mut state, &env(T0 + 10), &info(PAYER, 0), ExecuteMsg::CancelPayment { id: 1 }, true).unwrap();
    let e = execute(&mut state, &env(T0 + 10), &info("anyone", 0), ExecuteMsg::WithdrawPayment { id: 1 }, true);
    assert_eq!(Err(EscrowError::TooEarly), e.map(|_| ()));
    let later = T0 + 2 * 86400;
    let s = execute(&mut state, &env(later), &info("anyone", 0), ExecuteMsg::WithdrawPayment { id: 1 }, true).unwrap();
    assert_eq!(vec![("anyone".to_string(), 3u128), ("creator".to_string(), 2u128)], amounts(&s));
    let c = contract_of(&state, 1);
    assert_eq!(0, c.account_balance);
    assert_eq!(Status::Done, c.invoice.status);
    let e = execute(&mut state, &env(later), &info("anyone", 0), ExecuteMsg::WithdrawPayment { id: 1 }, true);
    assert_eq!(Err(EscrowError::AlreadySettled), e.map(|_| ()));
}

#[test]
fn withdraw_after_late_cancel_is_canceled() {
    let mut state = setup();
    execute(&mut state, &env(T0), &info("anyone", 0), submit(3, 3, 3, 2, Some(1)), true).unwrap();
    execute(&mut state, &env(T0), &info(PAYER, 6), ExecuteMsg::AcceptInvoice { id: 1 }, true).unwrap();
    execute(&mut state, &env(T0 + 86400), &info(PAYER, 0), ExecuteMsg::CancelPayment { id: 1 }, true).unwrap();
    let e = execute(&mut state, &env(T0 + 3 * 86400), &info("anyone", 0), ExecuteMsg::WithdrawPayment { id: 1 }, true);
    assert_eq!(Err(EscrowError::AlreadySettled), e.map(|_| ()));
}

#[test]
fn withdraw_before_payment_time_is_too_early() {
    let mut state = setup();
    execute(&mut state, &env(T0), &info("anyone", 0), submit(5, 1, 1, 3, Some(2)), true).unwrap();
    execute(&mut state, &env(T0), &info(PAYER, 100), ExecuteMsg::AcceptInvoice { id: 1 }, true).unwrap();
    for t in [T0, T0 + 86400, T0 + 3 * 86400 - 1] {
        let e = execute(&mut state, &env(t), &info("anyone", 0), ExecuteMsg::WithdrawPayment { id: 1 }, true);
        assert_eq!(Err(EscrowError::TooEarly), e.map(|_| ()));
    }
    let e = execute(&mut state, &env(T0), &info(PAYER, 0), ExecuteMsg::WithdrawPayment { id: 1 }, true);
    assert_eq!(Err(EscrowError::NotFound), e.map(|_| ()));
}

#[test]
fn non_recurrent_full_cycle() {
    let mut state = setup();
    execute(&mut state, &env(T0), &info("anyone", 0), submit(3, 3, 3, 2, None), true).unwrap();
    let s = execute(&mut state, &env(T0), &info(PAYER, 6), ExecuteMsg::AcceptInvoice { id: 1 }, true).unwrap();
    assert_eq!(vec![("creator".to_string(), 3u128)], amounts(&s));
    assert_eq!(3, contract_of(&state, 1).account_balance);
    let later = T0 + 2 * 86400;
    let s = execute(&mut state, &env(later), &info("anyone", 0), ExecuteMsg::WithdrawPayment { id: 1 }, true).unwrap();
    assert_eq!(vec![("anyone".to_string(), 0u128), ("creator".to_string(), 3u128)], amounts(&s));
    let c = contract_of(&state, 1);
    assert_eq!(0, c.invoice.remaining_time_of_payment);
    assert_eq!(0, c.account_balance);
    assert_eq!(0, invoice_of(&state, "anyone", 1).remaining_time_of_payment);
    let e = execute(&mut state, &env(later), &info("anyone", 0), ExecuteMsg::WithdrawPayment { id: 1 }, true);
    assert_eq!(Err(EscrowError::AlreadySettled), e.map(|_| ()));
}

#[test]
fn recurrent_installments_count_down() {
    let mut state = setup();
    execute(&mut state, &env(T0), &info("anyone", 0), submit(5, 1, 1, 1, Some(2)), true).unwrap();
    let e = execute(&mut state, &env(T0), &info(PAYER, 11), ExecuteMsg::AcceptInvoice { id: 1 }, true);
    assert_eq!(Err(EscrowError::InsufficientFunds), e.map(|_| ()));
    let s = execute(&mut state, &env(T0), &info(PAYER, 12), ExecuteMsg::AcceptInvoice { id: 1 }, true).unwrap();
    assert_eq!(vec![("creator".to_string(), 2u128)], amounts(&s));
    assert_eq!(10, contract_of(&state, 1).account_balance);
    assert_eq!(2, contract_of(&state, 1).invoice.remaining_time_of_payment);
    let later = T0 + 86400;
    for left in [1u64, 0] {
        let s = execute(&mut state, &env(later), &info("anyone", 0), ExecuteMsg::WithdrawPayment { id: 1 }, true).unwrap();
        assert_eq!(vec![("anyone".to_string(), 4u128), ("creator".to_string(), 1u128)], amounts(&s));
        assert_eq!(left, contract_of(&state, 1).invoice.remaining_time_of_payment);
    }
    assert_eq!(0, contract_of(&state, 1).account_balance);
    let e = execute(&mut state, &env(later), &info("anyone", 0), ExecuteMsg::WithdrawPayment { id: 1 }, true);
    assert_eq!(Err(EscrowError::AlreadySettled), e.map(|_| ()));
}

#[test]
fn withdraw_refuses_charge_above_installment() {
    let mut state = setup();
    execute(&mut state, &env(T0), &info("anyone", 0), submit(2, 1, 3, 0, None), true).unwrap();
    execute(&mut state, &env(T0), &info(PAYER, 3), ExecuteMsg::AcceptInvoice { id: 1 }, true).unwrap();
    let e = execute(&mut state, &env(T0), &info("anyone", 0), ExecuteMsg::WithdrawPayment { id: 1 }, true);
    assert_eq!(Err(EscrowError::InvalidState(StateIssue::ChargeExceedsAmount)), e.map(|_| ()));
}

#[test]
fn withdraw_refuses_empty_escrow() {
    let mut state = setup();
    execute(&mut state, &env(T0), &info("anyone", 0), submit(1, 1, 1, 2, None), true).unwrap();
    execute(&mut state, &env(T0), &info(PAYER, 2), ExecuteMsg::AcceptInvoice { id: 1 }, true).unwrap();
    execute(&mut state, &env(T0), &info(PAYER, 0), ExecuteMsg::CancelPayment { id: 1 }, true).unwrap();
    assert_eq!(0, contract_of(&state, 1).account_balance);
    let e = execute(&mut state, &env(T0 + 2 * 86400), &info("anyone", 0), ExecuteMsg::WithdrawPayment { id: 1 }, true);
    assert_eq!(Err(EscrowError::NothingReserved), e.map(|_| ()));
}

#[test]
fn withdraw_before_acceptance_is_refused() {
    let mut state = setup();
    execute(&mut state, &env(T0), &info("anyone", 0), submit(3, 3, 3, 2, None), true).unwrap();
    let e = execute(&mut state, &env(T0), &info("anyone", 0), ExecuteMsg::WithdrawPayment { id: 1 }, true);
    assert_eq!(Err(EscrowError::InvalidState(StateIssue::NotAccepted)), e.map(|_| ()));
}

#[test]
fn accept_refuses_due_time_out_of_range() {
    let mut state = setup();
    execute(&mut state, &env(T0), &info("anyone", 0), submit(1, 1, 1, u64::MAX / 86400, None), true).unwrap();
    let e = execute(&mut state, &env(T0), &info(PAYER, 2), ExecuteMsg::AcceptInvoice { id: 1 }, true);
    assert_eq!(Err(EscrowError::InvalidArgument), e.map(|_| ()));
}

#[test]
fn admin_transfer_rules() {
    let mut state = setup();
    let e = execute(&mut state, &env(T0), &info("anyone", 0), ExecuteMsg::AdminUpdateAmin { new_admin: "anyone".to_string() }, true);
    assert_eq!(Err(EscrowError::Unauthorized), e.map(|_| ()));
    let e = execute(&mut state, &env(T0), &info("creator", 0), ExecuteMsg::AdminUpdateAmin { new_admin: "bad".to_string() }, false);
    assert_eq!(Err(EscrowError::InvalidArgument), e.map(|_| ()));
    execute(&mut state, &env(T0), &info("creator", 0), ExecuteMsg::AdminUpdateAmin { new_admin: "next".to_string() }, true).unwrap();
    match query(&state, QueryMsg::AdmimWallet {}) {
        Ok(QueryAnswer::Admin(a)) => assert_eq!("next", a),
        _ => panic!("admin expected"),
    }
    let e = execute(&mut state, &env(T0), &info("creator", 0), ExecuteMsg::AdminUpdateAmin { new_admin: "creator".to_string() }, true);
    assert_eq!(Err(EscrowError::Unauthorized), e.map(|_| ()));
}

#[test]
fn queries_page_and_report_missing() {
    let mut state = setup();
    for _ in 0..5 {
        execute(&mut state, &env(T0), &info("anyone", 0), submit(3, 3, 3, 2, None), true).unwrap();
    }
    let ids = |page: u32, size: u32| match query(&state, QueryMsg::PaginatedInvoice { owner: "anyone".to_string(), page, page_size: size }) {
        Ok(QueryAnswer::Invoices(v)) => v.iter().map(|x| x.0).collect::<Vec<u64>>(),
        _ => panic!("page expected"),
    };
    assert_eq!(vec![1, 2], ids(0, 2));
    assert_eq!(vec![3, 4], ids(1, 2));
    assert_eq!(vec![5], ids(2, 2));
    assert_eq!(Vec::<u64>::new(), ids(3, 2));
    match query(&state, QueryMsg::PaginatedContract { payer: PAYER.to_string(), page: 1, page_size: 3 }) {
        Ok(QueryAnswer::Contracts(v)) => assert_eq!(vec![4, 5], v.iter().map(|x| x.0).collect::<Vec<u64>>()),
        _ => panic!("page expected"),
    }
    assert!(matches!(
        query(&state, QueryMsg::PaginatedInvoice { owner: "anyone".to_string(), page: 0, page_size: 0 }),
        Err(EscrowError::InvalidArgument)
    ));
    assert!(matches!(query(&state, QueryMsg::SingleInvoice { id: 9, owner: "anyone".to_string() }), Err(EscrowError::NotFound)));
    assert!(matches!(query(&state, QueryMsg::SingleContract { id: 1, payer: "anyone".to_string() }), Err(EscrowError::NotFound)));
    assert_eq!(0, invoice_count(&state, "nobody"));
}
