//! The escrow lifecycle: what each operation decides for one invoice, and the
//! operations themselves on the store.
use crate::address::Address;
use crate::constants::{MAX_DESCRIPTION_LEN, MAX_INVOICE_AMOUNT, MAX_METADATA_URI_LEN};
use crate::events::{self, Event};
use crate::storage::{
    self, same_terms, saved, ContractError, Invoice, InvoiceStatus, InvoiceView, Store, StoreState,
};
use crate::{transition_allowed, validate_transition};
use vstd::prelude::*;

verus! {

/// A movement of tokens that an operation asks the host to make.
#[derive(Debug)]
pub enum Transfer {
    /// `amount` of `token` moves from `from` into the contract's escrow.
    IntoEscrow { token: Address, from: Address, amount: i128 },
    /// `amount` of `token` moves from the contract's escrow to `to`.
    OutOfEscrow { token: Address, to: Address, amount: i128 },
}

/// What a successful operation decides: the invoice's new status, the
/// address whose authorisation the call needs (if any), the token movement
/// to make (if any) and the event to publish.
#[derive(Debug)]
pub struct Outcome {
    pub status: InvoiceStatus,
    pub signer: Option<Address>,
    pub transfer: Option<Transfer>,
    pub event: Event,
}

/// The first rule that the terms of a new invoice break, if any: the amount
/// must be positive and at most `MAX_INVOICE_AMOUNT`, the parties distinct,
/// the description at most `MAX_DESCRIPTION_LEN` bytes long.
pub open spec fn terms_check(
    freelancer: Address,
    client: Address,
    amount: i128,
    description_len: nat,
) -> Result<(), ContractError> {
    if amount <= 0 {
        Err(ContractError::InvalidAmount)
    } else if amount > MAX_INVOICE_AMOUNT {
        Err(ContractError::AmountExceedsMaximum)
    } else if freelancer@ == client@ {
        Err(ContractError::InvalidParties)
    } else if description_len > MAX_DESCRIPTION_LEN {
        Err(ContractError::DescriptionTooLong)
    } else {
        Ok(())
    }
}

/// Checks the terms of a new invoice.
pub fn validate_invoice_terms(
    freelancer: &Address,
    client: &Address,
    amount: i128,
    description: &Vec<u8>,
) -> (r: Result<(), ContractError>)
    ensures
        r == terms_check(*freelancer, *client, amount, description@.len()),
{
    if amount <= 0 {
        return Err(ContractError::InvalidAmount);
    }
    if amount > MAX_INVOICE_AMOUNT {
        return Err(ContractError::AmountExceedsMaximum);
    }
    if *freelancer == *client {
        return Err(ContractError::InvalidParties);
    }
    if description.len() > MAX_DESCRIPTION_LEN as usize {
        return Err(ContractError::DescriptionTooLong);
    }
    Ok(())
}

/// A freshly created invoice: pending, with the given terms.
pub open spec fn new_invoice(
    id: u64,
    freelancer: Address,
    client: Address,
    amount: i128,
    token: Address,
    deadline: u64,
    title: Seq<u8>,
    description: Seq<u8>,
    created_at: u64,
    metadata_uri: Seq<u8>,
) -> InvoiceView {
    InvoiceView {
        id,
        freelancer,
        client,
        amount,
        title,
        description,
        token,
        deadline,
        created_at,
        status: InvoiceStatus::Pending,
        metadata_uri,
    }
}

/// What creating invoice `id` decides.
pub open spec fn creation_outcome(
    id: u64,
    freelancer: Address,
    client: Address,
    amount: i128,
) -> Outcome {
    Outcome {
        status: InvoiceStatus::Pending,
        signer: Some(freelancer),
        transfer: None,
        event: Event::InvoiceCreated { invoice_id: id, freelancer, client, amount },
    }
}

/// What funding `invoice` with `token_address` at time `now` decides: the
/// client pays the amount into escrow, if the invoice is pending, the token
/// is the invoice's own and the deadline has not passed.
pub open spec fn funding_outcome(invoice: InvoiceView, token_address: Address, now: u64) -> Result<
    Outcome,
    ContractError,
> {
    if !transition_allowed(invoice.status, InvoiceStatus::Funded) {
        Err(ContractError::InvalidInvoiceStatus)
    } else if token_address@ != invoice.token@ {
        Err(ContractError::TokenMismatch)
    } else if now > invoice.deadline {
        Err(ContractError::InvoiceExpired)
    } else {
        Ok(
            Outcome {
                status: InvoiceStatus::Funded,
                signer: Some(invoice.client),
                transfer: Some(
                    Transfer::IntoEscrow {
                        token: invoice.token,
                        from: invoice.client,
                        amount: invoice.amount,
                    },
                ),
                event: Event::InvoiceFunded {
                    invoice_id: invoice.id,
                    client: invoice.client,
                    amount: invoice.amount,
                },
            },
        )
    }
}

/// What marking `invoice` as delivered decides: the freelancer signs, and
/// only a funded invoice moves.
pub open spec fn delivery_outcome(invoice: InvoiceView) -> Result<Outcome, ContractError> {
    if !transition_allowed(invoice.status, InvoiceStatus::Delivered) {
        Err(ContractError::InvalidInvoiceStatus)
    } else {
        Ok(
            Outcome {
                status: InvoiceStatus::Delivered,
                signer: Some(invoice.freelancer),
                transfer: None,
                event: Event::InvoiceDelivered {
                    invoice_id: invoice.id,
                    freelancer: invoice.freelancer,
                },
            },
        )
    }
}

/// What approving payment of `invoice` decides: the client signs, and only a
/// delivered invoice moves.
pub open spec fn approval_outcome(invoice: InvoiceView) -> Result<Outcome, ContractError> {
    if !transition_allowed(invoice.status, InvoiceStatus::Approved) {
        Err(ContractError::InvalidInvoiceStatus)
    } else {
        Ok(
            Outcome {
                status: InvoiceStatus::Approved,
                signer: Some(invoice.client),
                transfer: None,
                event: Event::InvoiceApproved { invoice_id: invoice.id, client: invoice.client },
            },
        )
    }
}

/// What cancelling `invoice` on behalf of `caller` decides: only its
/// freelancer or its client may, and only while it is pending.
pub open spec fn cancellation_outcome(invoice: InvoiceView, caller: Address) -> Result<
    Outcome,
    ContractError,
> {
    if caller@ != invoice.freelancer@ && caller@ != invoice.client@ {
        Err(ContractError::UnauthorizedCaller)
    } else if !transition_allowed(invoice.status, InvoiceStatus::Cancelled) {
        Err(ContractError::InvalidInvoiceStatus)
    } else {
        Ok(
            Outcome {
                status: InvoiceStatus::Cancelled,
                signer: Some(caller),
                transfer: None,
                event: Event::InvoiceCancelled { invoice_id: invoice.id, cancelled_by: caller },
            },
        )
    }
}

/// What releasing payment of `invoice` decides: the escrowed amount goes to
/// the freelancer, and only an approved invoice moves.
pub open spec fn release_outcome(invoice: InvoiceView) -> Result<Outcome, ContractError> {
    if !transition_allowed(invoice.status, InvoiceStatus::Completed) {
        Err(ContractError::InvalidInvoiceStatus)
    } else {
        Ok(
            Outcome {
                status: InvoiceStatus::Completed,
                signer: None,
                transfer: Some(
                    Transfer::OutOfEscrow {
                        token: invoice.token,
                        to: invoice.freelancer,
                        amount: invoice.amount,
                    },
                ),
                event: Event::InvoiceReleased {
                    invoice_id: invoice.id,
                    freelancer: invoice.freelancer,
                    amount: invoice.amount,
                },
            },
        )
    }
}

/// What disputing `invoice` decides: the client signs, and only a funded or
/// delivered invoice moves.
pub open spec fn dispute_outcome(invoice: InvoiceView) -> Result<Outcome, ContractError> {
    if !transition_allowed(invoice.status, InvoiceStatus::Disputed) {
        Err(ContractError::InvalidInvoiceStatus)
    } else {
        Ok(
            Outcome {
                status: InvoiceStatus::Disputed,
                signer: Some(invoice.client),
                transfer: None,
                event: Event::InvoiceDisputed { invoice_id: invoice.id, caller: invoice.client },
            },
        )
    }
}

/// Decides funding of `invoice` with `token_address` at time `now`.
pub fn decide_funding(invoice: &Invoice, token_address: &Address, now: u64) -> (r: Result<
    Outcome,
    ContractError,
>)
    ensures
        r == funding_outcome(invoice@, *token_address, now),
{
    if !validate_transition(&invoice.status, &InvoiceStatus::Funded) {
        return Err(ContractError::InvalidInvoiceStatus);
    }
    if *token_address != invoice.token {
        return Err(ContractError::TokenMismatch);
    }
    if now > invoice.deadline {
        return Err(ContractError::InvoiceExpired);
    }
    Ok(
        Outcome {
            status: InvoiceStatus::Funded,
            signer: Some(invoice.client.clone()),
            transfer: Some(
                Transfer::IntoEscrow {
                    token: invoice.token.clone(),
                    from: invoice.client.clone(),
                    amount: invoice.amount,
                },
            ),
            event: events::invoice_funded(invoice.id, &invoice.client, invoice.amount),
        },
    )
}

/// Decides marking `invoice` as delivered.
pub fn decide_delivery(invoice: &Invoice) -> (r: Result<Outcome, ContractError>)
    ensures
        r == delivery_outcome(invoice@),
{
    if !validate_transition(&invoice.status, &InvoiceStatus::Delivered) {
        return Err(ContractError::InvalidInvoiceStatus);
    }
    Ok(
        Outcome {
            status: InvoiceStatus::Delivered,
            signer: Some(invoice.freelancer.clone()),
            transfer: None,
            event: events::mark_delivered(invoice.id, &invoice.freelancer),
        },
    )
}

/// Decides approving payment of `invoice`.
pub fn decide_approval(invoice: &Invoice) -> (r: Result<Outcome, ContractError>)
    ensures
        r == approval_outcome(invoice@),
{
    if !validate_transition(&invoice.status, &InvoiceStatus::Approved) {
        return Err(ContractError::InvalidInvoiceStatus);
    }
    Ok(
        Outcome {
            status: InvoiceStatus::Approved,
            signer: Some(invoice.client.clone()),
            transfer: None,
            event: events::invoice_approved(invoice.id, &invoice.client),
        },
    )
}

/// Decides cancelling `invoice` on behalf of `caller`.
pub fn decide_cancellation(invoice: &Invoice, caller: &Address) -> (r: Result<
    Outcome,
    ContractError,
>)
    ensures
        r == cancellation_outcome(invoice@, *caller),
{
    if *caller != invoice.freelancer && *caller != invoice.client {
        return Err(ContractError::UnauthorizedCaller);
    }
    if !validate_transition(&invoice.status, &InvoiceStatus::Cancelled) {
        return Err(ContractError::InvalidInvoiceStatus);
    }
    Ok(
        Outcome {
            status: InvoiceStatus::Cancelled,
            signer: Some(caller.clone()),
            transfer: None,
            event: events::invoice_cancelled(invoice.id, caller),
        },
    )
}

/// Decides releasing payment of `invoice`.
pub fn decide_release(invoice: &Invoice) -> (r: Result<Outcome, ContractError>)
    ensures
        r == release_outcome(invoice@),
{
    if !validate_transition(&invoice.status, &InvoiceStatus::Completed) {
        return Err(ContractError::InvalidInvoiceStatus);
    }
    Ok(
        Outcome {
            status: InvoiceStatus::Completed,
            signer: None,
            transfer: Some(
                Transfer::OutOfEscrow {
                    token: invoice.token.clone(),
                    to: invoice.freelancer.clone(),
                    amount: invoice.amount,
                },
            ),
            event: events::release_payment(invoice.id, &invoice.freelancer, invoice.amount),
        },
    )
}

/// Decides disputing `invoice`.
pub fn decide_dispute(invoice: &Invoice) -> (r: Result<Outcome, ContractError>)
    ensures
        r == dispute_outcome(invoice@),
{
    if !validate_transition(&invoice.status, &InvoiceStatus::Disputed) {
        return Err(ContractError::InvalidInvoiceStatus);
    }
    Ok(
        Outcome {
            status: InvoiceStatus::Disputed,
            signer: Some(invoice.client.clone()),
            transfer: None,
            event: events::invoice_disputed(invoice.id, &invoice.client),
        },
    )
}

} // verus!

verus! {

/// The store after an operation on invoice `id` decided `r`: the invoice
/// takes its new status and is saved again on success; nothing changes on an
/// error.
pub open spec fn after(s: StoreState, id: u64, r: Result<Outcome, ContractError>) -> StoreState {
    match r {
        Ok(o) => saved(s, s.invoices[id].with_status(o.status)),
        Err(_) => s,
    }
}

/// The store after invoice `id` has been created with the given terms.
pub open spec fn created(s: StoreState, invoice: InvoiceView) -> StoreState {
    saved(StoreState { count: (s.count + 1) as u64, ..s }, invoice)
}

/// Creates a pending invoice without metadata, created at time `now`, and
/// returns its id: the counter's value before the call.
pub fn create_invoice(
    store: &mut Store,
    freelancer: Address,
    client: Address,
    amount: i128,
    token: Address,
    deadline: u64,
    title: Vec<u8>,
    description: Vec<u8>,
    now: u64,
) -> (r: Result<(u64, Outcome), ContractError>)
    requires
        old(store).wf(),
        old(store)@.count < u64::MAX,
    ensures
        final(store).wf(),
        match terms_check(freelancer, client, amount, description@.len()) {
            Err(e) => r == Err::<(u64, Outcome), ContractError>(e) && final(store)@ == old(
                store,
            )@,
            Ok(_) => r == Ok::<(u64, Outcome), ContractError>(
                (
                    old(store)@.count,
                    creation_outcome(old(store)@.count, freelancer, client, amount),
                ),
            ) && final(store)@ == created(
                old(store)@,
                new_invoice(
                    old(store)@.count,
                    freelancer,
                    client,
                    amount,
                    token,
                    deadline,
                    title@,
                    description@,
                    now,
                    Seq::empty(),
                ),
            ),
        },
{
    let metadata_uri: Vec<u8> = Vec::new();
    create_invoice_with_metadata(
        store,
        freelancer,
        client,
        amount,
        token,
        deadline,
        title,
        description,
        metadata_uri,
        now,
    )
}

/// The first rule that a new invoice with metadata breaks, if any: those of
/// `terms_check`, then a metadata URI of at most `MAX_METADATA_URI_LEN` bytes.
pub open spec fn creation_check(
    freelancer: Address,
    client: Address,
    amount: i128,
    description_len: nat,
    metadata_uri_len: nat,
) -> Result<(), ContractError> {
    match terms_check(freelancer, client, amount, description_len) {
        Err(e) => Err(e),
        Ok(_) => if metadata_uri_len > MAX_METADATA_URI_LEN {
            Err(ContractError::MetadataUriTooLong)
        } else {
            Ok(())
        },
    }
}

/// Checks the terms of a new invoice that carries a metadata URI.
pub fn validate_new_invoice(
    freelancer: &Address,
    client: &Address,
    amount: i128,
    description: &Vec<u8>,
    metadata_uri: &Vec<u8>,
) -> (r: Result<(), ContractError>)
    ensures
        r == creation_check(
            *freelancer,
            *client,
            amount,
            description@.len(),
            metadata_uri@.len(),
        ),
{
    validate_invoice_terms(freelancer, client, amount, description)?;
    if metadata_uri.len() > MAX_METADATA_URI_LEN as usize {
        return Err(ContractError::MetadataUriTooLong);
    }
    Ok(())
}

/// Decides creating invoice `invoice_id` with the given terms at time `now`:
/// the new pending invoice and what the host has to do, or the first rule
/// that the terms break.
pub fn decide_creation(
    invoice_id: u64,
    freelancer: Address,
    client: Address,
    amount: i128,
    token: Address,
    deadline: u64,
    title: Vec<u8>,
    description: Vec<u8>,
    metadata_uri: Vec<u8>,
    now: u64,
) -> (r: Result<(Invoice, Outcome), ContractError>)
    ensures
        match creation_check(
            freelancer,
            client,
            amount,
            description@.len(),
            metadata_uri@.len(),
        ) {
            Err(e) => r is Err && r->Err_0 == e,
            Ok(_) => r is Ok && r->Ok_0.0@ == new_invoice(
                invoice_id,
                freelancer,
                client,
                amount,
                token,
                deadline,
                title@,
                description@,
                now,
                metadata_uri@,
            ) && r->Ok_0.1 == creation_outcome(invoice_id, freelancer, client, amount),
        },
{
    validate_new_invoice(&freelancer, &client, amount, &description, &metadata_uri)?;
    let event = events::invoice_created(invoice_id, &freelancer, &client, amount);
    let signer = freelancer.clone();
    let invoice = Invoice {
        id: invoice_id,
        freelancer,
        client,
        amount,
        title,
        description,
        token,
        deadline,
        created_at: now,
        status: InvoiceStatus::Pending,
        metadata_uri,
    };
    Ok((invoice, Outcome { status: InvoiceStatus::Pending, signer: Some(signer), transfer: None, event }))
}

/// Creates a pending invoice with a metadata URI, created at time `now`, and
/// returns its id: the counter's value before the call.
pub fn create_invoice_with_metadata(
    store: &mut Store,
    freelancer: Address,
    client: Address,
    amount: i128,
    token: Address,
    deadline: u64,
    title: Vec<u8>,
    description: Vec<u8>,
    metadata_uri: Vec<u8>,
    now: u64,
) -> (r: Result<(u64, Outcome), ContractError>)
    requires
        old(store).wf(),
        old(store)@.count < u64::MAX,
    ensures
        final(store).wf(),
        match creation_check(
            freelancer,
            client,
            amount,
            description@.len(),
            metadata_uri@.len(),
        ) {
            Err(e) => r == Err::<(u64, Outcome), ContractError>(e) && final(store)@ == old(
                store,
            )@,
            Ok(_) => r == Ok::<(u64, Outcome), ContractError>(
                (
                    old(store)@.count,
                    creation_outcome(old(store)@.count, freelancer, client, amount),
                ),
            ) && final(store)@ == created(
                old(store)@,
                new_invoice(
                    old(store)@.count,
                    freelancer,
                    client,
                    amount,
                    token,
                    deadline,
                    title@,
                    description@,
                    now,
                    metadata_uri@,
                ),
            ),
        },
{
    let invoice_id = storage::get_invoice_count(store);
    let (invoice, outcome) = decide_creation(
        invoice_id,
        freelancer,
        client,
        amount,
        token,
        deadline,
        title,
        description,
        metadata_uri,
        now,
    )?;
    let id = storage::next_invoice_id(store);
    storage::save_invoice(store, &invoice);
    Ok((id, outcome))
}

/// Funds invoice `invoice_id` with `token_address` at time `now`: the client
/// deposits the amount into escrow and the invoice becomes funded.
pub fn fund_invoice(store: &mut Store, invoice_id: u64, token_address: &Address, now: u64) -> (r:
    Result<Outcome, ContractError>)
    requires
        old(store).wf(),
    ensures
        final(store).wf(),
        !old(store)@.invoices.contains_key(invoice_id) ==> r == Err::<Outcome, ContractError>(
            ContractError::InvoiceNotFound,
        ) && final(store)@ == old(store)@,
        old(store)@.invoices.contains_key(invoice_id) ==> r == funding_outcome(
            old(store)@.invoices[invoice_id],
            *token_address,
            now,
        ) && final(store)@ == after(old(store)@, invoice_id, r),
{
    let invoice = storage::get_invoice(store, invoice_id)?;
    let outcome = decide_funding(&invoice, token_address, now)?;
    storage::update_invoice_status(store, invoice_id, outcome.status);
    Ok(outcome)
}

/// Marks invoice `invoice_id` as delivered, on behalf of its freelancer.
pub fn mark_delivered(store: &mut Store, invoice_id: u64) -> (r: Result<Outcome, ContractError>)
    requires
        old(store).wf(),
    ensures
        final(store).wf(),
        !old(store)@.invoices.contains_key(invoice_id) ==> r == Err::<Outcome, ContractError>(
            ContractError::InvoiceNotFound,
        ) && final(store)@ == old(store)@,
        old(store)@.invoices.contains_key(invoice_id) ==> r == delivery_outcome(
            old(store)@.invoices[invoice_id],
        ) && final(store)@ == after(old(store)@, invoice_id, r),
{
    let invoice = storage::get_invoice(store, invoice_id)?;
    let outcome = decide_delivery(&invoice)?;
    storage::update_invoice_status(store, invoice_id, outcome.status);
    Ok(outcome)
}

/// Approves payment of invoice `invoice_id`, on behalf of its client.
pub fn approve_payment(store: &mut Store, invoice_id: u64) -> (r: Result<Outcome, ContractError>)
    requires
        old(store).wf(),
    ensures
        final(store).wf(),
        !old(store)@.invoices.contains_key(invoice_id) ==> r == Err::<Outcome, ContractError>(
            ContractError::InvoiceNotFound,
        ) && final(store)@ == old(store)@,
        old(store)@.invoices.contains_key(invoice_id) ==> r == approval_outcome(
            old(store)@.invoices[invoice_id],
        ) && final(store)@ == after(old(store)@, invoice_id, r),
{
    let invoice = storage::get_invoice(store, invoice_id)?;
    let outcome = decide_approval(&invoice)?;
    storage::update_invoice_status(store, invoice_id, outcome.status);
    Ok(outcome)
}

/// Cancels invoice `invoice_id` on behalf of `caller`.
pub fn cancel_invoice(store: &mut Store, invoice_id: u64, caller: &Address) -> (r: Result<
    Outcome,
    ContractError,
>)
    requires
        old(store).wf(),
    ensures
        final(store).wf(),
        !old(store)@.invoices.contains_key(invoice_id) ==> r == Err::<Outcome, ContractError>(
            ContractError::InvoiceNotFound,
        ) && final(store)@ == old(store)@,
        old(store)@.invoices.contains_key(invoice_id) ==> r == cancellation_outcome(
            old(store)@.invoices[invoice_id],
            *caller,
        ) && final(store)@ == after(old(store)@, invoice_id, r),
{
    let invoice = storage::get_invoice(store, invoice_id)?;
    let outcome = decide_cancellation(&invoice, caller)?;
    storage::update_invoice_status(store, invoice_id, outcome.status);
    Ok(outcome)
}

/// Releases the escrowed payment of invoice `invoice_id` to its freelancer.
pub fn release_payment(store: &mut Store, invoice_id: u64) -> (r: Result<Outcome, ContractError>)
    requires
        old(store).wf(),
    ensures
        final(store).wf(),
        !old(store)@.invoices.contains_key(invoice_id) ==> r == Err::<Outcome, ContractError>(
            ContractError::InvoiceNotFound,
        ) && final(store)@ == old(store)@,
        old(store)@.invoices.contains_key(invoice_id) ==> r == release_outcome(
            old(store)@.invoices[invoice_id],
        ) && final(store)@ == after(old(store)@, invoice_id, r),
{
    let mut invoice = storage::get_invoice(store, invoice_id)?;
    let outcome = decide_release(&invoice)?;
    invoice.status = outcome.status;
    storage::save_invoice(store, &invoice);
    Ok(outcome)
}

/// Disputes invoice `invoice_id`, on behalf of its client.
pub fn dispute_invoice(store: &mut Store, invoice_id: u64) -> (r: Result<Outcome, ContractError>)
    requires
        old(store).wf(),
    ensures
        final(store).wf(),
        !old(store)@.invoices.contains_key(invoice_id) ==> r == Err::<Outcome, ContractError>(
            ContractError::InvoiceNotFound,
        ) && final(store)@ == old(store)@,
        old(store)@.invoices.contains_key(invoice_id) ==> r == dispute_outcome(
            old(store)@.invoices[invoice_id],
        ) && final(store)@ == after(old(store)@, invoice_id, r),
{
    let invoice = storage::get_invoice(store, invoice_id)?;
    let outcome = decide_dispute(&invoice)?;
    storage::update_invoice_status(store, invoice_id, outcome.status);
    Ok(outcome)
}

} // verus!

verus! {

/// What the contract holds in escrow for an invoice in status `status`: its
/// amount from funding until the funds leave, nothing before or after.
pub open spec fn escrowed(status: InvoiceStatus, amount: i128) -> int {
    match status {
        InvoiceStatus::Funded | InvoiceStatus::Delivered | InvoiceStatus::Approved
        | InvoiceStatus::Disputed => amount as int,
        _ => 0,
    }
}

/// How much a transfer adds to the escrow of the token named `token`
/// (negative when it takes out).
pub open spec fn escrow_change(transfer: Option<Transfer>, token: Seq<char>) -> int {
    match transfer {
        Some(Transfer::IntoEscrow { token: t, amount, .. }) => if t@ == token {
            amount as int
        } else {
            0
        },
        Some(Transfer::OutOfEscrow { token: t, amount, .. }) => if t@ == token {
            -(amount as int)
        } else {
            0
        },
        None => 0,
    }
}

/// The outcome keeps the escrow of `invoice` balanced: the escrow held for it
/// under its new status is the escrow held under its old status plus what the
/// transfer moves in its token, and no transfer touches another token.
pub open spec fn balanced(invoice: InvoiceView, o: Outcome) -> bool {
    &&& escrowed(o.status, invoice.amount) == escrowed(invoice.status, invoice.amount)
        + escrow_change(o.transfer, invoice.token@)
    &&& match o.transfer {
        Some(Transfer::IntoEscrow { token, .. }) => token == invoice.token,
        Some(Transfer::OutOfEscrow { token, .. }) => token == invoice.token,
        None => true,
    }
}

/// Every operation keeps the escrow balanced: funding moves exactly the
/// invoice's amount into escrow, release moves exactly that amount out, and
/// the others move nothing.
pub proof fn law_escrow_balanced(invoice: InvoiceView, token_address: Address, now: u64, caller: Address)
    ensures
        funding_outcome(invoice, token_address, now) is Ok ==> balanced(
            invoice,
            funding_outcome(invoice, token_address, now)->Ok_0,
        ),
        delivery_outcome(invoice) is Ok ==> balanced(invoice, delivery_outcome(invoice)->Ok_0),
        approval_outcome(invoice) is Ok ==> balanced(invoice, approval_outcome(invoice)->Ok_0),
        cancellation_outcome(invoice, caller) is Ok ==> balanced(
            invoice,
            cancellation_outcome(invoice, caller)->Ok_0,
        ),
        release_outcome(invoice) is Ok ==> balanced(invoice, release_outcome(invoice)->Ok_0),
        dispute_outcome(invoice) is Ok ==> balanced(invoice, dispute_outcome(invoice)->Ok_0),
{
}

/// Every operation that succeeds moves the invoice along an allowed
/// transition of the lifecycle.
pub proof fn law_operations_follow_lifecycle(
    invoice: InvoiceView,
    token_address: Address,
    now: u64,
    caller: Address,
)
    ensures
        funding_outcome(invoice, token_address, now) is Ok ==> transition_allowed(
            invoice.status,
            funding_outcome(invoice, token_address, now)->Ok_0.status,
        ),
        delivery_outcome(invoice) is Ok ==> transition_allowed(
            invoice.status,
            delivery_outcome(invoice)->Ok_0.status,
        ),
        approval_outcome(invoice) is Ok ==> transition_allowed(
            invoice.status,
            approval_outcome(invoice)->Ok_0.status,
        ),
        cancellation_outcome(invoice, caller) is Ok ==> transition_allowed(
            invoice.status,
            cancellation_outcome(invoice, caller)->Ok_0.status,
        ),
        release_outcome(invoice) is Ok ==> transition_allowed(
            invoice.status,
            release_outcome(invoice)->Ok_0.status,
        ),
        dispute_outcome(invoice) is Ok ==> transition_allowed(
            invoice.status,
            dispute_outcome(invoice)->Ok_0.status,
        ),
{
}

/// Only the invoice's own parties authorise its changes: the client funds,
/// approves and disputes, the freelancer marks delivery, either of them may
/// cancel, and release needs no one's signature since its funds can only go
/// to the freelancer.
pub proof fn law_parties_authorise(
    invoice: InvoiceView,
    token_address: Address,
    now: u64,
    caller: Address,
)
    ensures
        funding_outcome(invoice, token_address, now) is Ok ==> funding_outcome(
            invoice,
            token_address,
            now,
        )->Ok_0.signer == Some(invoice.client),
        delivery_outcome(invoice) is Ok ==> delivery_outcome(invoice)->Ok_0.signer == Some(
            invoice.freelancer,
        ),
        approval_outcome(invoice) is Ok ==> approval_outcome(invoice)->Ok_0.signer == Some(
            invoice.client,
        ),
        cancellation_outcome(invoice, caller) is Ok ==> caller@ == invoice.freelancer@ || caller@
            == invoice.client@,
        cancellation_outcome(invoice, caller) is Ok ==> cancellation_outcome(
            invoice,
            caller,
        )->Ok_0.signer == Some(caller),
        release_outcome(invoice) is Ok ==> release_outcome(invoice)->Ok_0.transfer == Some(
            Transfer::OutOfEscrow {
                token: invoice.token,
                to: invoice.freelancer,
                amount: invoice.amount,
            },
        ),
        dispute_outcome(invoice) is Ok ==> dispute_outcome(invoice)->Ok_0.signer == Some(
            invoice.client,
        ),
{
}

/// An operation on invoice `id`, stored under its own id, changes nothing but
/// that invoice's status (and, on success, records the id again in its
/// parties' indexes, where it already stands in a consistent contract).
pub proof fn law_only_status_changes(s: StoreState, id: u64, r: Result<Outcome, ContractError>)
    requires
        s.invoices.contains_key(id),
        s.invoices[id].id == id,
    ensures
        after(s, id, r).count == s.count,
        after(s, id, r).admin == s.admin,
        after(s, id, r).invoices.dom() == s.invoices.dom(),
        forall|k: u64| #[trigger]
            s.invoices.contains_key(k) && k != id ==> after(s, id, r).invoices[k] == s.invoices[k],
        r is Ok ==> after(s, id, r).invoices[id] == s.invoices[id].with_status(r->Ok_0.status),
        r is Ok ==> same_terms(after(s, id, r).invoices[id], s.invoices[id]),
        r is Ok ==> after(s, id, r).invoices[id].status == r->Ok_0.status,
        r is Err ==> after(s, id, r) == s,
{
    match r {
        Ok(o) => {
            let changed = s.invoices[id].with_status(o.status);
            let m = s.invoices.insert(id, changed);
            assert(after(s, id, r).invoices == m);
            assert(m.dom() =~= s.invoices.dom());
            assert forall|k: u64| #[trigger]
                s.invoices.contains_key(k) && k != id implies m[k] == s.invoices[k] by {}
        },
        Err(_) => {},
    }
}

} // verus!

verus! {

/// The operations on a stored invoice whose signer the invoice names.
#[derive(Clone, Copy, Debug)]
pub enum InvoiceOperation {
    Fund,
    MarkDelivered,
    Approve,
    Release,
    Dispute,
}

/// Whose authorisation `op` on `invoice` needs: the client funds, approves
/// and disputes, the freelancer marks delivery, and release needs no one.
pub open spec fn signer_of(op: InvoiceOperation, invoice: InvoiceView) -> Option<Address> {
    match op {
        InvoiceOperation::Fund => Some(invoice.client),
        InvoiceOperation::MarkDelivered => Some(invoice.freelancer),
        InvoiceOperation::Approve => Some(invoice.client),
        InvoiceOperation::Release => None,
        InvoiceOperation::Dispute => Some(invoice.client),
    }
}

/// Whose authorisation `op` on `invoice` needs, known before the operation
/// checks anything else.
pub fn required_signer(op: InvoiceOperation, invoice: &Invoice) -> (signer: Option<Address>)
    ensures
        signer == signer_of(op, invoice@),
{
    match op {
        InvoiceOperation::Fund => Some(invoice.client.clone()),
        InvoiceOperation::MarkDelivered => Some(invoice.freelancer.clone()),
        InvoiceOperation::Approve => Some(invoice.client.clone()),
        InvoiceOperation::Release => None,
        InvoiceOperation::Dispute => Some(invoice.client.clone()),
    }
}

/// The signer that an operation's outcome names is the one that
/// `required_signer` gives before the operation decides.
pub proof fn law_signer_known_in_advance(invoice: InvoiceView, token_address: Address, now: u64)
    ensures
        funding_outcome(invoice, token_address, now) is Ok ==> funding_outcome(
            invoice,
            token_address,
            now,
        )->Ok_0.signer == signer_of(InvoiceOperation::Fund, invoice),
        delivery_outcome(invoice) is Ok ==> delivery_outcome(invoice)->Ok_0.signer == signer_of(
            InvoiceOperation::MarkDelivered,
            invoice,
        ),
        approval_outcome(invoice) is Ok ==> approval_outcome(invoice)->Ok_0.signer == signer_of(
            InvoiceOperation::Approve,
            invoice,
        ),
        release_outcome(invoice) is Ok ==> release_outcome(invoice)->Ok_0.signer == signer_of(
            InvoiceOperation::Release,
            invoice,
        ),
        dispute_outcome(invoice) is Ok ==> dispute_outcome(invoice)->Ok_0.signer == signer_of(
            InvoiceOperation::Dispute,
            invoice,
        ),
{
}

} // verus!

verus! {

/// Each operation's event carries the payload that the contract documents
/// for it: created `(id, freelancer, client, amount)`, funded
/// `(id, client, amount)` with the client as the payer of the deposit,
/// delivered `(id, freelancer)`, approved `(id, client)`, cancelled
/// `(id, cancelled_by)`, released `(id, freelancer, amount)` with the
/// freelancer as the payee, and disputed `(id, client)`.
pub proof fn law_events_carry_their_payloads(
    invoice: InvoiceView,
    token_address: Address,
    now: u64,
    caller: Address,
    id: u64,
    freelancer: Address,
    client: Address,
    amount: i128,
)
    ensures
        creation_outcome(id, freelancer, client, amount).event == (Event::InvoiceCreated {
            invoice_id: id,
            freelancer,
            client,
            amount,
        }),
        creation_outcome(id, freelancer, client, amount).signer == Some(freelancer),
        creation_outcome(id, freelancer, client, amount).status == InvoiceStatus::Pending,
        creation_outcome(id, freelancer, client, amount).transfer is None,
        funding_outcome(invoice, token_address, now) is Ok ==> ({
            let o = funding_outcome(invoice, token_address, now)->Ok_0;
            &&& o.event == (Event::InvoiceFunded {
                invoice_id: invoice.id,
                client: invoice.client,
                amount: invoice.amount,
            })
            &&& o.transfer == Some(
                Transfer::IntoEscrow {
                    token: invoice.token,
                    from: invoice.client,
                    amount: invoice.amount,
                },
            )
        }),
        delivery_outcome(invoice) is Ok ==> delivery_outcome(invoice)->Ok_0.event
            == (Event::InvoiceDelivered { invoice_id: invoice.id, freelancer: invoice.freelancer }),
        approval_outcome(invoice) is Ok ==> approval_outcome(invoice)->Ok_0.event
            == (Event::InvoiceApproved { invoice_id: invoice.id, client: invoice.client }),
        cancellation_outcome(invoice, caller) is Ok ==> cancellation_outcome(
            invoice,
            caller,
        )->Ok_0.event == (Event::InvoiceCancelled { invoice_id: invoice.id, cancelled_by: caller }),
        release_outcome(invoice) is Ok ==> release_outcome(invoice)->Ok_0.event
            == (Event::InvoiceReleased {
            invoice_id: invoice.id,
            freelancer: invoice.freelancer,
            amount: invoice.amount,
        }),
        dispute_outcome(invoice) is Ok ==> dispute_outcome(invoice)->Ok_0.event
            == (Event::InvoiceDisputed { invoice_id: invoice.id, caller: invoice.client }),
{
}

/// A created invoice records exactly the terms it was created with, pending,
/// and the creation's event names the same parties and amount as the stored
/// invoice.
pub proof fn law_creation_records_terms(
    id: u64,
    freelancer: Address,
    client: Address,
    amount: i128,
    token: Address,
    deadline: u64,
    title: Seq<u8>,
    description: Seq<u8>,
    now: u64,
    metadata_uri: Seq<u8>,
)
    ensures
        ({
            let inv = new_invoice(
                id,
                freelancer,
                client,
                amount,
                token,
                deadline,
                title,
                description,
                now,
                metadata_uri,
            );
            &&& inv.id == id
            &&& inv.freelancer == freelancer
            &&& inv.client == client
            &&& inv.amount == amount
            &&& inv.token == token
            &&& inv.deadline == deadline
            &&& inv.title == title
            &&& inv.description == description
            &&& inv.created_at == now
            &&& inv.metadata_uri == metadata_uri
            &&& inv.status == InvoiceStatus::Pending
            &&& creation_outcome(id, freelancer, client, amount).event == (Event::InvoiceCreated {
                invoice_id: inv.id,
                freelancer: inv.freelancer,
                client: inv.client,
                amount: inv.amount,
            })
        }),
{
}

} // verus!
