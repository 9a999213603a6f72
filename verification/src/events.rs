//! The events that the contract publishes, one per state change. Each event
//! has a two-part topic and a payload; publishing it is the host's work.
use crate::address::Address;
use vstd::prelude::*;

verus! {

/// An event of the contract: the kind names its topic, the fields are its payload.
#[derive(Debug)]
pub enum Event {
    /// Topic `("INVOICE", "created")`.
    InvoiceCreated { invoice_id: u64, freelancer: Address, client: Address, amount: i128 },
    /// Topic `("INVOICE", "funded")`.
    InvoiceFunded { invoice_id: u64, client: Address, amount: i128 },
    /// Topic `("INVOICE", "delivered")`.
    InvoiceDelivered { invoice_id: u64, freelancer: Address },
    /// Topic `("INVOICE", "approved")`.
    InvoiceApproved { invoice_id: u64, client: Address },
    /// Topic `("INVOICE", "cancelled")`.
    InvoiceCancelled { invoice_id: u64, cancelled_by: Address },
    /// Topic `("INVOICE", "disputed")`.
    InvoiceDisputed { invoice_id: u64, caller: Address },
    /// Topic `("INVOICE", "released")`.
    InvoiceReleased { invoice_id: u64, freelancer: Address, amount: i128 },
    /// Topic `("INVOICE", "refunded")`.
    InvoiceRefunded { invoice_id: u64, client: Address, amount: i128 },
    /// Topic `("ADMIN", "initialized")`.
    AdminInitialized { admin: Address },
    /// Topic `("ADMIN", "changed")`.
    AdminChanged { old_admin: Address, new_admin: Address },
    /// Topic `("DISPUTE", "resolved")`.
    DisputeResolved { invoice_id: u64, winner: Address },
}

/// The two symbols of an event's topic.
pub open spec fn event_topic(e: Event) -> (Seq<char>, Seq<char>) {
    match e {
        Event::InvoiceCreated { .. } => ("INVOICE"@, "created"@),
        Event::InvoiceFunded { .. } => ("INVOICE"@, "funded"@),
        Event::InvoiceDelivered { .. } => ("INVOICE"@, "delivered"@),
        Event::InvoiceApproved { .. } => ("INVOICE"@, "approved"@),
        Event::InvoiceCancelled { .. } => ("INVOICE"@, "cancelled"@),
        Event::InvoiceDisputed { .. } => ("INVOICE"@, "disputed"@),
        Event::InvoiceReleased { .. } => ("INVOICE"@, "released"@),
        Event::InvoiceRefunded { .. } => ("INVOICE"@, "refunded"@),
        Event::AdminInitialized { .. } => ("ADMIN"@, "initialized"@),
        Event::AdminChanged { .. } => ("ADMIN"@, "changed"@),
        Event::DisputeResolved { .. } => ("DISPUTE"@, "resolved"@),
    }
}

impl Event {
    /// The topic under which this event is published.
    pub fn topic(&self) -> (t: (&'static str, &'static str))
        ensures
            (t.0@, t.1@) == event_topic(*self),
    {
        match self {
            Event::InvoiceCreated { .. } => ("INVOICE", "created"),
            Event::InvoiceFunded { .. } => ("INVOICE", "funded"),
            Event::InvoiceDelivered { .. } => ("INVOICE", "delivered"),
            Event::InvoiceApproved { .. } => ("INVOICE", "approved"),
            Event::InvoiceCancelled { .. } => ("INVOICE", "cancelled"),
            Event::InvoiceDisputed { .. } => ("INVOICE", "disputed"),
            Event::InvoiceReleased { .. } => ("INVOICE", "released"),
            Event::InvoiceRefunded { .. } => ("INVOICE", "refunded"),
            Event::AdminInitialized { .. } => ("ADMIN", "initialized"),
            Event::AdminChanged { .. } => ("ADMIN", "changed"),
            Event::DisputeResolved { .. } => ("DISPUTE", "resolved"),
        }
    }
}

/// The event for a new invoice: `(invoice_id, freelancer, client, amount)`.
pub fn invoice_created(invoice_id: u64, freelancer: &Address, client: &Address, amount: i128) -> (e:
    Event)
    ensures
        e == (Event::InvoiceCreated {
            invoice_id,
            freelancer: *freelancer,
            client: *client,
            amount,
        }),
{
    Event::InvoiceCreated {
        invoice_id,
        freelancer: freelancer.clone(),
        client: client.clone(),
        amount,
    }
}

/// The event for an invoice funded by its client: `(invoice_id, client, amount)`.
pub fn invoice_funded(invoice_id: u64, client: &Address, amount: i128) -> (e: Event)
    ensures
        e == (Event::InvoiceFunded { invoice_id, client: *client, amount }),
{
    Event::InvoiceFunded { invoice_id, client: client.clone(), amount }
}

/// The event for work marked as delivered: `(invoice_id, freelancer)`.
pub fn mark_delivered(invoice_id: u64, freelancer: &Address) -> (e: Event)
    ensures
        e == (Event::InvoiceDelivered { invoice_id, freelancer: *freelancer }),
{
    Event::InvoiceDelivered { invoice_id, freelancer: freelancer.clone() }
}

/// The event for a delivery approved by the client: `(invoice_id, client)`.
pub fn invoice_approved(invoice_id: u64, client: &Address) -> (e: Event)
    ensures
        e == (Event::InvoiceApproved { invoice_id, client: *client }),
{
    Event::InvoiceApproved { invoice_id, client: client.clone() }
}

/// The event for a cancelled invoice: `(invoice_id, cancelled_by)`.
pub fn invoice_cancelled(invoice_id: u64, cancelled_by: &Address) -> (e: Event)
    ensures
        e == (Event::InvoiceCancelled { invoice_id, cancelled_by: *cancelled_by }),
{
    Event::InvoiceCancelled { invoice_id, cancelled_by: cancelled_by.clone() }
}

/// The event for a disputed invoice: `(invoice_id, caller)`.
pub fn invoice_disputed(invoice_id: u64, caller: &Address) -> (e: Event)
    ensures
        e == (Event::InvoiceDisputed { invoice_id, caller: *caller }),
{
    Event::InvoiceDisputed { invoice_id, caller: caller.clone() }
}

/// The event for escrowed funds released to the freelancer:
/// `(invoice_id, freelancer, amount)`.
pub fn release_payment(invoice_id: u64, freelancer: &Address, amount: i128) -> (e: Event)
    ensures
        e == (Event::InvoiceReleased { invoice_id, freelancer: *freelancer, amount }),
{
    Event::InvoiceReleased { invoice_id, freelancer: freelancer.clone(), amount }
}

/// The event for escrowed funds released to the freelancer:
/// `(invoice_id, freelancer, amount)`.
pub fn invoice_released(invoice_id: u64, freelancer: &Address, amount: i128) -> (e: Event)
    ensures
        e == (Event::InvoiceReleased { invoice_id, freelancer: *freelancer, amount }),
{
    Event::InvoiceReleased { invoice_id, freelancer: freelancer.clone(), amount }
}

/// The event for an initialised administrator: `admin`.
pub fn admin_initialized(admin: &Address) -> (e: Event)
    ensures
        e == (Event::AdminInitialized { admin: *admin }),
{
    Event::AdminInitialized { admin: admin.clone() }
}

/// The event for a changed administrator: `(old_admin, new_admin)`.
pub fn admin_changed(old_admin: &Address, new_admin: &Address) -> (e: Event)
    ensures
        e == (Event::AdminChanged { old_admin: *old_admin, new_admin: *new_admin }),
{
    Event::AdminChanged { old_admin: old_admin.clone(), new_admin: new_admin.clone() }
}

/// The event for a dispute resolved by the administrator: `(invoice_id, winner)`.
pub fn dispute_resolved(invoice_id: u64, winner: &Address) -> (e: Event)
    ensures
        e == (Event::DisputeResolved { invoice_id, winner: *winner }),
{
    Event::DisputeResolved { invoice_id, winner: winner.clone() }
}

/// The event for escrowed funds returned to the client: `(invoice_id, client, amount)`.
pub fn invoice_refunded(invoice_id: u64, client: &Address, amount: i128) -> (e: Event)
    ensures
        e == (Event::InvoiceRefunded { invoice_id, client: *client, amount }),
{
    Event::InvoiceRefunded { invoice_id, client: client.clone(), amount }
}

} // verus!
