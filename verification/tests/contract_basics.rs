use star_invoice::escrow::{Outcome, Transfer};
use star_invoice::{Address, ContractError, InvoiceContract, InvoiceStatus};

const TEST_AMOUNT: i128 = 1_000;
const TEST_DEADLINE: u64 = 9_999_999_999;

fn addr(name: &str) -> Address {
    Address::new(name)
}

fn create(
    c: &mut InvoiceContract,
    freelancer: &Address,
    client: &Address,
    amount: i128,
    token: &Address,
    title: &str,
    description: &str,
) -> Result<u64, ContractError> {
    c.create_invoice(
        freelancer.clone(),
        client.clone(),
        amount,
        token.clone(),
        TEST_DEADLINE,
        title.as_bytes().to_vec(),
        description.as_bytes().to_vec(),
        Vec::new(),
        0,
    )
    .map(|(id, _)| id)
}

/// Creates and funds an invoice; returns its id and the funding outcome.
fn create_funded(
    c: &mut InvoiceContract,
    freelancer: &Address,
    payer: &Address,
    amount: i128,
    token: &Address,
) -> (u64, Outcome) {
    let id = create(c, freelancer, payer, amount, token, "Test Invoice", "Test description").unwrap();
    let funded = c.fund_invoice(id, token, 0).unwrap();
    (id, funded)
}

/// Net amount of `token` that a list of outcomes moves into escrow.
fn escrow_balance(outcomes: &[&Outcome], token: &Address) -> i128 {
    let mut total = 0;
    for o in outcomes {
        match &o.transfer {
            Some(Transfer::IntoEscrow { token: t, amount, .. }) if t == token => total += amount,
            Some(Transfer::OutOfEscrow { token: t, amount, .. }) if t == token => total -= amount,
            _ => {}
        }
    }
    total
}

/// Amount of `token` that a list of outcomes pays out of escrow to `to`.
fn paid_to(outcomes: &[&Outcome], token: &Address, to: &Address) -> i128 {
    let mut total = 0;
    for o in outcomes {
        if let Some(Transfer::OutOfEscrow { token: t, to: r, amount }) = &o.transfer {
            if t == token && r == to {
                total += amount;
            }
        }
    }
    total
}

fn check_create_invoice() {
    let mut c = InvoiceContract::new();
    let id = create(
        &mut c,
        &addr("freelancer"),
        &addr("payer"),
        TEST_AMOUNT,
        &addr("token"),
        "Logo Design",
        "Logo design work",
    )
    .unwrap();
    assert_eq!(id, 0);
}

fn check_create_invoice_unique_ids() {
    let mut c = InvoiceContract::new();
    let freelancer = addr("freelancer");
    let payer = addr("payer");
    for i in 0..5u64 {
        let token = addr(&format!("token-{}", i));
        let id = create(&mut c, &freelancer, &payer, TEST_AMOUNT, &token, "Unique ID Test", "Unique ID test").unwrap();
        assert_eq!(id, i);
    }
    assert_eq!(c.invoice_count(), 5);
}

fn check_mark_delivered_happy_path() {
    let mut c = InvoiceContract::new();
    let (id, _) = create_funded(&mut c, &addr("freelancer"), &addr("payer"), TEST_AMOUNT, &addr("token"));
    c.mark_delivered(id).unwrap();
    assert_eq!(c.get_invoice(id).unwrap().status, InvoiceStatus::Delivered);
}

fn check_fund_invoice_happy_path() {
    let mut c = InvoiceContract::new();
    let (id, _) = create_funded(&mut c, &addr("freelancer"), &addr("payer"), 3000, &addr("token"));
    c.mark_delivered(id).unwrap();
    c.approve_payment(id).unwrap();
    assert_eq!(c.get_invoice(id).unwrap().status, InvoiceStatus::Approved);
}

fn check_release_payment_happy_path(amount: i128) {
    let mut c = InvoiceContract::new();
    let freelancer = addr("freelancer");
    let token = addr("token");
    let (id, funded) = create_funded(&mut c, &freelancer, &addr("payer"), amount, &token);
    c.mark_delivered(id).unwrap();
    c.approve_payment(id).unwrap();
    let released = c.release_payment(id).unwrap();
    assert_eq!(paid_to(&[&funded, &released], &token, &freelancer), amount);
    assert_eq!(escrow_balance(&[&funded, &released], &token), 0);
    assert_eq!(c.get_invoice(id).unwrap().status, InvoiceStatus::Completed);
}

fn check_invoice_not_found_error_code() {
    let c = InvoiceContract::new();
    assert!(c.get_invoice(999).is_err());
}

fn check_invalid_amount_error_code() {
    let mut c = InvoiceContract::new();
    let r = create(&mut c, &addr("freelancer"), &addr("payer"), 0, &addr("token"), "T", "D");
    assert_eq!(r, Err(ContractError::InvalidAmount));
}

fn check_invalid_parties_error_code() {
    let mut c = InvoiceContract::new();
    let freelancer = addr("freelancer");
    let r = create(&mut c, &freelancer, &freelancer, TEST_AMOUNT, &addr("token"), "T", "D");
    assert_eq!(r, Err(ContractError::InvalidParties));
}

fn check_description_too_long_error_code() {
    let mut c = InvoiceContract::new();
    // 257 'a' characters: one over the 256-byte limit
    let long_desc = "a".repeat(257);
    let r = create(&mut c, &addr("freelancer"), &addr("payer"), TEST_AMOUNT, &addr("token"), "T", &long_desc);
    assert_eq!(r, Err(ContractError::DescriptionTooLong));
}

fn check_invalid_status_mark_delivered_error_code() {
    let mut c = InvoiceContract::new();
    let id = create(&mut c, &addr("freelancer"), &addr("payer"), TEST_AMOUNT, &addr("token"), "T", "D").unwrap();
    assert_eq!(c.mark_delivered(id).unwrap_err(), ContractError::InvalidInvoiceStatus);
}

fn check_invalid_status_approve_payment_error_code() {
    let mut c = InvoiceContract::new();
    let (id, _) = create_funded(&mut c, &addr("freelancer"), &addr("payer"), TEST_AMOUNT, &addr("token"));
    assert_eq!(c.approve_payment(id).unwrap_err(), ContractError::InvalidInvoiceStatus);
}

fn check_invalid_status_release_payment_error_code() {
    let mut c = InvoiceContract::new();
    let (id, _) = create_funded(&mut c, &addr("freelancer"), &addr("payer"), TEST_AMOUNT, &addr("token"));
    c.mark_delivered(id).unwrap();
    assert_eq!(c.release_payment(id).unwrap_err(), ContractError::InvalidInvoiceStatus);
}

fn check_unauthorized_cancel_error_code() {
    let mut c = InvoiceContract::new();
    let id = create(&mut c, &addr("freelancer"), &addr("payer"), TEST_AMOUNT, &addr("token"), "T", "D").unwrap();
    assert_eq!(c.cancel_invoice(id, &addr("stranger")).unwrap_err(), ContractError::UnauthorizedCaller);
}

fn check_token_mismatch_error_code() {
    let mut c = InvoiceContract::new();
    let id = create(&mut c, &addr("freelancer"), &addr("payer"), TEST_AMOUNT, &addr("token"), "T", "D").unwrap();
    assert_eq!(c.fund_invoice(id, &addr("wrong-token"), 0).unwrap_err(), ContractError::TokenMismatch);
}

#[test]
fn lib_test_create_invoice() {
    check_create_invoice();
}

#[test]
fn lib_test_create_invoice_unique_ids() {
    check_create_invoice_unique_ids();
}

#[test]
fn lib_test_mark_delivered_happy_path() {
    check_mark_delivered_happy_path();
}

#[test]
fn lib_test_fund_invoice_happy_path() {
    check_fund_invoice_happy_path();
}

#[test]
fn lib_test_release_payment_happy_path() {
    check_release_payment_happy_path(2000);
}

#[test]
fn lib_test_invoice_not_found_error_code() {
    check_invoice_not_found_error_code();
}

#[test]
fn lib_test_invalid_amount_error_code() {
    check_invalid_amount_error_code();
}

#[test]
fn lib_test_invalid_parties_error_code() {
    check_invalid_parties_error_code();
}

#[test]
fn lib_test_description_too_long_error_code() {
    check_description_too_long_error_code();
}

#[test]
fn lib_test_invalid_status_mark_delivered_error_code() {
    check_invalid_status_mark_delivered_error_code();
}

#[test]
fn lib_test_invalid_status_approve_payment_error_code() {
    check_invalid_status_approve_payment_error_code();
}

#[test]
fn lib_test_invalid_status_release_payment_error_code() {
    check_invalid_status_release_payment_error_code();
}

#[test]
fn lib_test_unauthorized_cancel_error_code() {
    check_unauthorized_cancel_error_code();
}

#[test]
fn lib_test_token_mismatch_error_code() {
    check_token_mismatch_error_code();
}

#[test]
fn mod_test_create_invoice() {
    check_create_invoice();
}

#[test]
fn mod_test_create_invoice_unique_ids() {
    check_create_invoice_unique_ids();
}

#[test]
fn mod_test_mark_delivered_happy_path() {
    check_mark_delivered_happy_path();
}

#[test]
fn mod_test_fund_invoice_happy_path() {
    check_fund_invoice_happy_path();
}

#[test]
fn mod_test_release_payment_happy_path() {
    check_release_payment_happy_path(TEST_AMOUNT);
}

#[test]
fn mod_test_invoice_not_found_error_code() {
    check_invoice_not_found_error_code();
}

#[test]
fn mod_test_invalid_amount_error_code() {
    check_invalid_amount_error_code();
}

#[test]
fn mod_test_invalid_parties_error_code() {
    check_invalid_parties_error_code();
}

#[test]
fn mod_test_description_too_long_error_code() {
    check_description_too_long_error_code();
}

#[test]
fn mod_test_invalid_status_mark_delivered_error_code() {
    check_invalid_status_mark_delivered_error_code();
}

#[test]
fn mod_test_invalid_status_approve_payment_error_code() {
    check_invalid_status_approve_payment_error_code();
}

#[test]
fn mod_test_invalid_status_release_payment_error_code() {
    check_invalid_status_release_payment_error_code();
}

#[test]
fn mod_test_unauthorized_cancel_error_code() {
    check_unauthorized_cancel_error_code();
}

#[test]
fn mod_test_token_mismatch_error_code() {
    check_token_mismatch_error_code();
}

#[test]
fn test_initialize_sets_admin() {
    let mut c = InvoiceContract::new();
    let admin = addr("admin");
    c.initialize(&admin);
    assert_eq!(c.get_admin(), Some(admin));
}
