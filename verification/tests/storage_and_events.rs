use star_invoice::escrow;
use star_invoice::events::{self, Event};
use star_invoice::storage::{self, Store};
use star_invoice::views;
use star_invoice::{Address, ContractError, Invoice, InvoiceStatus};

fn invoice(id: u64, freelancer: &str, client: &str) -> Invoice {
    Invoice {
        id,
        freelancer: Address::new(freelancer),
        client: Address::new(client),
        amount: 500,
        title: "t".as_bytes().to_vec(),
        description: "d".as_bytes().to_vec(),
        token: Address::new("token"),
        deadline: 10,
        created_at: 1,
        status: InvoiceStatus::Pending,
        metadata_uri: Vec::new(),
    }
}

#[test]
fn store_counter_starts_at_zero_and_counts_up() {
    let mut store = Store::new();
    assert_eq!(storage::get_invoice_count(&store), 0);
    assert_eq!(storage::next_invoice_id(&mut store), 0);
    assert_eq!(storage::next_invoice_id(&mut store), 1);
    assert_eq!(storage::get_invoice_count(&store), 2);
    assert_eq!(views::invoice_count(&store), 2);
}

#[test]
fn save_then_get_gives_back_the_invoice() {
    let mut store = Store::new();
    let inv = invoice(7, "f", "c");
    storage::save_invoice(&mut store, &inv);
    let got = storage::get_invoice(&store, 7).unwrap();
    assert_eq!(got.id, 7);
    assert_eq!(got.freelancer, Address::new("f"));
    assert_eq!(got.amount, 500);
    assert_eq!(storage::get_invoice(&store, 8).unwrap_err(), ContractError::InvoiceNotFound);
}

#[test]
fn save_records_each_id_once_per_party() {
    let mut store = Store::new();
    storage::save_invoice(&mut store, &invoice(3, "f", "c"));
    storage::save_invoice(&mut store, &invoice(3, "f", "c"));
    storage::save_invoice(&mut store, &invoice(1, "f", "c2"));
    assert_eq!(storage::get_invoices_by_freelancer(&store, &Address::new("f")), vec![3, 1]);
    assert_eq!(storage::get_invoices_by_client(&store, &Address::new("c")), vec![3]);
    assert_eq!(views::get_invoices_by_client(&store, &Address::new("c2")), vec![1]);
    assert!(views::get_invoices_by_freelancer(&store, &Address::new("c")).is_empty());
}

#[test]
fn update_status_changes_only_the_status() {
    let mut store = Store::new();
    storage::save_invoice(&mut store, &invoice(0, "f", "c"));
    storage::update_invoice_status(&mut store, 0, InvoiceStatus::Funded);
    let got = storage::get_invoice(&store, 0).unwrap();
    assert_eq!(got.status, InvoiceStatus::Funded);
    assert_eq!(got.client, Address::new("c"));
    // an id that holds nothing stays empty
    storage::update_invoice_status(&mut store, 5, InvoiceStatus::Funded);
    assert!(storage::get_invoice(&store, 5).is_err());
}

#[test]
fn admin_is_unset_until_set() {
    let mut store = Store::new();
    assert_eq!(storage::get_admin(&store), None);
    storage::set_admin(&mut store, &Address::new("admin"));
    assert_eq!(storage::get_admin(&store), Some(Address::new("admin")));
}

#[test]
fn append_unique_skips_ids_already_present() {
    let mut ids = vec![4, 9];
    storage::append_unique(&mut ids, 9);
    assert_eq!(ids, vec![4, 9]);
    storage::append_unique(&mut ids, 2);
    assert_eq!(ids, vec![4, 9, 2]);
}

#[test]
fn escrow_operations_on_a_store() {
    let mut store = Store::new();
    let token = Address::new("token");
    let (id, created) = escrow::create_invoice(
        &mut store,
        Address::new("f"),
        Address::new("c"),
        100,
        token.clone(),
        50,
        "t".as_bytes().to_vec(),
        "d".as_bytes().to_vec(),
        3,
    )
    .unwrap();
    assert_eq!(id, 0);
    assert_eq!(created.signer, Some(Address::new("f")));
    assert!(storage::get_invoice(&store, 0).unwrap().metadata_uri.is_empty());
    assert_eq!(storage::get_invoice(&store, 0).unwrap().created_at, 3);

    assert_eq!(
        escrow::fund_invoice(&mut store, 0, &Address::new("other"), 0).unwrap_err(),
        ContractError::TokenMismatch
    );
    escrow::fund_invoice(&mut store, 0, &token, 50).unwrap();
    escrow::mark_delivered(&mut store, 0).unwrap();
    escrow::approve_payment(&mut store, 0).unwrap();
    let released = escrow::release_payment(&mut store, 0).unwrap();
    assert_eq!(released.status, InvoiceStatus::Completed);
    assert_eq!(storage::get_invoice(&store, 0).unwrap().status, InvoiceStatus::Completed);

    let (id2, _) = escrow::create_invoice_with_metadata(
        &mut store,
        Address::new("f"),
        Address::new("c"),
        100,
        token.clone(),
        50,
        "t".as_bytes().to_vec(),
        "d".as_bytes().to_vec(),
        "m".as_bytes().to_vec(),
        3,
    )
    .unwrap();
    assert_eq!(id2, 1);
    escrow::cancel_invoice(&mut store, 1, &Address::new("c")).unwrap();
    assert_eq!(escrow::dispute_invoice(&mut store, 1).unwrap_err(), ContractError::InvalidInvoiceStatus);
    assert_eq!(views::get_invoice(&store, 1).unwrap().status, InvoiceStatus::Cancelled);
    assert_eq!(views::get_invoices_by_amount_range(&store, 100, 100).len(), 2);
}

#[test]
fn escrow_create_checks_terms_in_order() {
    let mut store = Store::new();
    let mk = |store: &mut Store, f: &str, c: &str, amount: i128, d: Vec<u8>| {
        escrow::create_invoice(
            store,
            Address::new(f),
            Address::new(c),
            amount,
            Address::new("t"),
            0,
            Vec::new(),
            d,
            0,
        )
        .map(|(id, _)| id)
    };
    assert_eq!(mk(&mut store, "a", "a", -1, "x".repeat(300).into_bytes()), Err(ContractError::InvalidAmount));
    assert_eq!(mk(&mut store, "a", "a", 20_000_000_000_000, "x".repeat(300).into_bytes()), Err(ContractError::AmountExceedsMaximum));
    assert_eq!(mk(&mut store, "a", "a", 5, "x".repeat(300).into_bytes()), Err(ContractError::InvalidParties));
    assert_eq!(mk(&mut store, "a", "b", 5, "x".repeat(300).into_bytes()), Err(ContractError::DescriptionTooLong));
    assert_eq!(mk(&mut store, "a", "b", 5, "x".repeat(256).into_bytes()), Ok(0));
}

#[test]
fn per_invoice_decisions() {
    let inv = invoice(2, "f", "c");
    let f = Address::new("f");
    let c = Address::new("c");
    assert_eq!(escrow::decide_delivery(&inv).unwrap_err(), ContractError::InvalidInvoiceStatus);
    assert_eq!(escrow::decide_funding(&inv, &Address::new("token"), 11).unwrap_err(), ContractError::InvoiceExpired);
    let funded = escrow::decide_funding(&inv, &Address::new("token"), 10).unwrap();
    assert_eq!(funded.status, InvoiceStatus::Funded);
    let cancelled = escrow::decide_cancellation(&inv, &f).unwrap();
    assert_eq!(cancelled.signer, Some(f.clone()));
    assert!(escrow::decide_approval(&inv).is_err());
    assert!(escrow::decide_release(&inv).is_err());
    assert!(escrow::decide_dispute(&inv).is_err());
    let mut delivered = invoice(2, "f", "c");
    delivered.status = InvoiceStatus::Delivered;
    assert_eq!(escrow::decide_approval(&delivered).unwrap().signer, Some(c.clone()));
    assert_eq!(escrow::decide_dispute(&delivered).unwrap().signer, Some(c));
    assert_eq!(
        escrow::validate_invoice_terms(&Address::new("f"), &Address::new("c"), 1, &"d".as_bytes().to_vec()),
        Ok(())
    );
}

#[test]
fn event_payloads_and_topics() {
    let f = Address::new("f");
    let c = Address::new("c");
    let cases: Vec<(Event, (&str, &str))> = vec![
        (events::invoice_created(1, &f, &c, 5), ("INVOICE", "created")),
        (events::invoice_funded(1, &c, 5), ("INVOICE", "funded")),
        (events::mark_delivered(1, &f), ("INVOICE", "delivered")),
        (events::invoice_approved(1, &c), ("INVOICE", "approved")),
        (events::invoice_cancelled(1, &c), ("INVOICE", "cancelled")),
        (events::invoice_disputed(1, &c), ("INVOICE", "disputed")),
        (events::release_payment(1, &f, 5), ("INVOICE", "released")),
        (events::invoice_released(1, &f, 5), ("INVOICE", "released")),
        (events::invoice_refunded(1, &c, 5), ("INVOICE", "refunded")),
        (events::admin_initialized(&f), ("ADMIN", "initialized")),
        (events::admin_changed(&f, &c), ("ADMIN", "changed")),
        (events::dispute_resolved(1, &f), ("DISPUTE", "resolved")),
    ];
    for (event, topic) in cases.iter() {
        assert_eq!(event.topic(), *topic);
    }
    match events::invoice_created(9, &f, &c, 77) {
        Event::InvoiceCreated { invoice_id, freelancer, client, amount } => {
            assert_eq!(invoice_id, 9);
            assert_eq!(freelancer, f);
            assert_eq!(client, c);
            assert_eq!(amount, 77);
        }
        other => panic!("unexpected event {:?}", other),
    }
    match events::admin_changed(&f, &c) {
        Event::AdminChanged { old_admin, new_admin } => {
            assert_eq!(old_admin, f);
            assert_eq!(new_admin, c);
        }
        other => panic!("unexpected event {:?}", other),
    }
}
