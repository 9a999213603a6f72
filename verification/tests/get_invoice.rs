use star_invoice::{ContractError, InvoiceContract};

#[test]
fn test_get_nonexistent_invoice_returns_error() {
    let c = InvoiceContract::new();
    assert!(c.get_invoice(9999).is_err());
}

#[test]
fn missing_invoice_is_reported_by_every_operation() {
    let mut c = InvoiceContract::new();
    let token = star_invoice::Address::new("token");
    let who = star_invoice::Address::new("someone");
    assert_eq!(c.get_invoice(0).unwrap_err(), ContractError::InvoiceNotFound);
    assert_eq!(c.fund_invoice(0, &token, 0).unwrap_err(), ContractError::InvoiceNotFound);
    assert_eq!(c.mark_delivered(0).unwrap_err(), ContractError::InvoiceNotFound);
    assert_eq!(c.approve_payment(0).unwrap_err(), ContractError::InvoiceNotFound);
    assert_eq!(c.cancel_invoice(0, &who).unwrap_err(), ContractError::InvoiceNotFound);
    assert_eq!(c.release_payment(0).unwrap_err(), ContractError::InvoiceNotFound);
    assert_eq!(c.dispute_invoice(0).unwrap_err(), ContractError::InvoiceNotFound);
}
