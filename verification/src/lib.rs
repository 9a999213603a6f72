//! Escrow for freelance invoices: an invoice moves through a fixed lifecycle
//! (pending, funded, delivered, approved, completed, with cancel and dispute
//! exits), and the contract state keeps every invoice with its indexes.

mod address;
pub mod constants;
pub mod contract;
pub mod escrow;
pub mod events;
pub mod storage;
pub mod views;

use vstd::prelude::*;

pub use constants::{MAX_DESCRIPTION_LEN, MAX_INVOICE_AMOUNT, MAX_METADATA_URI_LEN, TTL_EXTEND_TO, TTL_THRESHOLD};
pub use address::Address;
pub use contract::InvoiceContract;
pub use storage::{ContractError, Invoice, InvoiceStatus, InvoiceView};

verus! {

/// Whether the lifecycle lets an invoice go from `from` to `to` in one step.
pub open spec fn transition_allowed(from: InvoiceStatus, to: InvoiceStatus) -> bool {
    match (from, to) {
        (InvoiceStatus::Pending, InvoiceStatus::Funded) => true,
        (InvoiceStatus::Pending, InvoiceStatus::Cancelled) => true,
        (InvoiceStatus::Funded, InvoiceStatus::Delivered) => true,
        (InvoiceStatus::Funded, InvoiceStatus::Disputed) => true,
        (InvoiceStatus::Delivered, InvoiceStatus::Approved) => true,
        (InvoiceStatus::Delivered, InvoiceStatus::Disputed) => true,
        (InvoiceStatus::Approved, InvoiceStatus::Completed) => true,
        _ => false,
    }
}

/// Validates whether a status transition is permitted.
pub fn validate_transition(from: &InvoiceStatus, to: &InvoiceStatus) -> (allowed: bool)
    ensures
        allowed == transition_allowed(*from, *to),
{
    match (from, to) {
        (InvoiceStatus::Pending, InvoiceStatus::Funded) => true,
        (InvoiceStatus::Pending, InvoiceStatus::Cancelled) => true,
        (InvoiceStatus::Funded, InvoiceStatus::Delivered) => true,
        (InvoiceStatus::Funded, InvoiceStatus::Disputed) => true,
        (InvoiceStatus::Delivered, InvoiceStatus::Approved) => true,
        (InvoiceStatus::Delivered, InvoiceStatus::Disputed) => true,
        (InvoiceStatus::Approved, InvoiceStatus::Completed) => true,
        _ => false,
    }
}

/// The position of a status along the lifecycle; every allowed step moves
/// forward.
pub open spec fn status_rank(s: InvoiceStatus) -> nat {
    match s {
        InvoiceStatus::Pending => 0,
        InvoiceStatus::Funded => 1,
        InvoiceStatus::Cancelled => 1,
        InvoiceStatus::Delivered => 2,
        InvoiceStatus::Approved => 3,
        InvoiceStatus::Disputed => 3,
        InvoiceStatus::Completed => 4,
    }
}

/// Every allowed transition moves forward along the lifecycle, so an invoice
/// never comes back to a status it has left.
pub proof fn law_transitions_move_forward(from: InvoiceStatus, to: InvoiceStatus)
    requires
        transition_allowed(from, to),
    ensures
        status_rank(from) < status_rank(to),
{
}

/// Completed, cancelled and disputed invoices are final: no transition leaves
/// them. No transition leads back to pending.
pub proof fn law_final_statuses(s: InvoiceStatus)
    ensures
        !transition_allowed(InvoiceStatus::Completed, s),
        !transition_allowed(InvoiceStatus::Cancelled, s),
        !transition_allowed(InvoiceStatus::Disputed, s),
        !transition_allowed(s, InvoiceStatus::Pending),
{
}

/// Funds reach the freelancer only through approval: the only way into
/// completed is from approved, and into approved from delivered.
pub proof fn law_completion_needs_approval(from: InvoiceStatus)
    ensures
        transition_allowed(from, InvoiceStatus::Completed) <==> from == InvoiceStatus::Approved,
        transition_allowed(from, InvoiceStatus::Approved) <==> from == InvoiceStatus::Delivered,
{
}

} // verus!
