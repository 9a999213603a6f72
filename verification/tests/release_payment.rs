use star_invoice::escrow::{Outcome, Transfer};
use star_invoice::{Address, ContractError, InvoiceContract, InvoiceStatus};

fn setup() -> (InvoiceContract, Address, Address, Address, i128) {
    (
        InvoiceContract::new(),
        Address::new("freelancer"),
        Address::new("client"),
        Address::new("token"),
        1000,
    )
}

fn create(c: &mut InvoiceContract, freelancer: &Address, client: &Address, token: &Address, amount: i128) -> u64 {
    c.create_invoice(
        freelancer.clone(),
        client.clone(),
        amount,
        token.clone(),
        9999999999,
        "Test".as_bytes().to_vec(),
        "Test".as_bytes().to_vec(),
        Vec::new(),
        0,
    )
    .unwrap()
    .0
}

/// Creates an invoice and takes it to approved; returns its id and the outcomes.
fn create_approved(
    c: &mut InvoiceContract,
    freelancer: &Address,
    client: &Address,
    token: &Address,
    amount: i128,
) -> (u64, Vec<Outcome>) {
    let id = create(c, freelancer, client, token, amount);
    let mut outcomes = Vec::new();
    outcomes.push(c.fund_invoice(id, token, 0).unwrap());
    outcomes.push(c.mark_delivered(id).unwrap());
    outcomes.push(c.approve_payment(id).unwrap());
    (id, outcomes)
}

/// What `who` holds of `token` after the outcomes, where the contract is `None`.
fn balance(outcomes: &[Outcome], token: &Address, who: Option<&Address>) -> i128 {
    let mut total = 0;
    for o in outcomes {
        match &o.transfer {
            Some(Transfer::IntoEscrow { token: t, from, amount }) if t == token => match who {
                None => total += amount,
                Some(w) if w == from => total -= amount,
                _ => {}
            },
            Some(Transfer::OutOfEscrow { token: t, to, amount }) if t == token => match who {
                None => total -= amount,
                Some(w) if w == to => total += amount,
                _ => {}
            },
            _ => {}
        }
    }
    total
}

#[test]
fn test_release_payment_transfers_funds_to_freelancer() {
    let (mut c, freelancer, client, token, amount) = setup();
    let (id, mut outcomes) = create_approved(&mut c, &freelancer, &client, &token, amount);

    assert_eq!(balance(&outcomes, &token, None), amount);
    assert_eq!(balance(&outcomes, &token, Some(&freelancer)), 0);

    outcomes.push(c.release_payment(id).unwrap());

    assert_eq!(balance(&outcomes, &token, Some(&freelancer)), amount);
    assert_eq!(balance(&outcomes, &token, None), 0);
}

#[test]
fn test_release_payment_sets_status_to_completed() {
    let (mut c, freelancer, client, token, amount) = setup();
    let (id, _) = create_approved(&mut c, &freelancer, &client, &token, amount);
    c.release_payment(id).unwrap();
    assert_eq!(c.get_invoice(id).unwrap().status, InvoiceStatus::Completed);
}

#[test]
fn test_release_payment_on_non_approved_invoice_fails() {
    let (mut c, freelancer, client, token, amount) = setup();
    let id = create(&mut c, &freelancer, &client, &token, amount);
    c.fund_invoice(id, &token, 0).unwrap();
    assert_eq!(c.release_payment(id).unwrap_err(), ContractError::InvalidInvoiceStatus);
}

#[test]
fn test_release_payment_twice_fails() {
    let (mut c, freelancer, client, token, amount) = setup();
    let (id, _) = create_approved(&mut c, &freelancer, &client, &token, amount);
    c.release_payment(id).unwrap();
    assert_eq!(c.release_payment(id).unwrap_err(), ContractError::InvalidInvoiceStatus);
}

#[test]
fn release_needs_no_signer_and_pays_the_freelancer() {
    let (mut c, freelancer, client, token, amount) = setup();
    let (id, _) = create_approved(&mut c, &freelancer, &client, &token, amount);
    let outcome = c.release_payment(id).unwrap();
    assert!(outcome.signer.is_none());
    assert_eq!(outcome.event.topic(), ("INVOICE", "released"));
    match outcome.transfer {
        Some(Transfer::OutOfEscrow { token: t, to, amount: a }) => {
            assert_eq!(t, token);
            assert_eq!(to, freelancer);
            assert_eq!(a, amount);
        }
        other => panic!("unexpected transfer {:?}", other),
    }
}
