use star_invoice::{Address, InvoiceContract};

fn setup() -> (InvoiceContract, Address, Address) {
    (InvoiceContract::new(), Address::new("freelancer"), Address::new("payer"))
}

fn create_invoice(c: &mut InvoiceContract, freelancer: &Address, payer: &Address, amount: i128) -> u64 {
    let token = Address::new(&format!("token-{}", c.invoice_count()));
    c.create_invoice(
        freelancer.clone(),
        payer.clone(),
        amount,
        token,
        9_999_999_999,
        "Test".as_bytes().to_vec(),
        "Test invoice".as_bytes().to_vec(),
        Vec::new(),
        0,
    )
    .unwrap()
    .0
}

#[test]
fn test_amount_range_returns_matching_invoices() {
    let (mut c, freelancer, payer) = setup();
    create_invoice(&mut c, &freelancer, &payer, 100);
    create_invoice(&mut c, &freelancer, &payer, 500);
    create_invoice(&mut c, &freelancer, &payer, 1000);
    create_invoice(&mut c, &freelancer, &payer, 2000);

    let results = c.get_invoices_by_amount_range(200, 1000);
    assert_eq!(results.len(), 2);
    assert!(results.iter().any(|inv| inv.amount == 500));
    assert!(results.iter().any(|inv| inv.amount == 1000));
}

#[test]
fn test_amount_range_inclusive_bounds() {
    let (mut c, freelancer, payer) = setup();
    create_invoice(&mut c, &freelancer, &payer, 100);
    create_invoice(&mut c, &freelancer, &payer, 200);
    create_invoice(&mut c, &freelancer, &payer, 300);

    let results = c.get_invoices_by_amount_range(100, 300);
    assert_eq!(results.len(), 3);
}

#[test]
fn test_amount_range_no_matches_returns_empty() {
    let (mut c, freelancer, payer) = setup();
    create_invoice(&mut c, &freelancer, &payer, 50);
    create_invoice(&mut c, &freelancer, &payer, 75);

    let results = c.get_invoices_by_amount_range(1000, 5000);
    assert_eq!(results.len(), 0);
}

#[test]
fn test_amount_range_exact_match() {
    let (mut c, freelancer, payer) = setup();
    create_invoice(&mut c, &freelancer, &payer, 999);
    create_invoice(&mut c, &freelancer, &payer, 1000);
    create_invoice(&mut c, &freelancer, &payer, 1001);

    let results = c.get_invoices_by_amount_range(1000, 1000);
    assert_eq!(results.len(), 1);
    assert_eq!(results[0].amount, 1000);
}

#[test]
fn test_amount_range_empty_contract() {
    let (c, _freelancer, _payer) = setup();
    let results = c.get_invoices_by_amount_range(0, 9_999_999);
    assert_eq!(results.len(), 0);
}

#[test]
fn test_amount_range_all_invoices_match() {
    let (mut c, freelancer, payer) = setup();
    for amount in [100i128, 200, 300, 400, 500] {
        create_invoice(&mut c, &freelancer, &payer, amount);
    }
    let results = c.get_invoices_by_amount_range(1, 10_000);
    assert_eq!(results.len(), 5);
}

#[test]
fn amount_range_keeps_id_order_and_inverted_bounds_match_nothing() {
    let (mut c, freelancer, payer) = setup();
    for amount in [300i128, 100, 200] {
        create_invoice(&mut c, &freelancer, &payer, amount);
    }
    let results = c.get_invoices_by_amount_range(100, 300);
    let ids: Vec<u64> = results.iter().map(|inv| inv.id).collect();
    assert_eq!(ids, vec![0, 1, 2]);
    assert_eq!(c.get_invoices_by_amount_range(300, 100).len(), 0);
}
