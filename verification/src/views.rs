//! Read-only queries over the store.
use crate::address::Address;
use crate::storage::{self, ids_of, ContractError, Invoice, InvoiceView, Store, StoreState};
use vstd::prelude::*;

verus! {

/// Retrieves an invoice by id.
pub fn get_invoice(store: &Store, invoice_id: u64) -> (r: Result<Invoice, ContractError>)
    ensures
        match r {
            Ok(invoice) => store@.invoices.contains_key(invoice_id) && invoice@
                == store@.invoices[invoice_id],
            Err(e) => !store@.invoices.contains_key(invoice_id) && e
                == ContractError::InvoiceNotFound,
        },
{
    storage::get_invoice(store, invoice_id)
}

/// Returns all invoice ids recorded for a freelancer.
pub fn get_invoices_by_freelancer(store: &Store, freelancer: &Address) -> (ids: Vec<u64>)
    requires
        store.wf(),
    ensures
        ids@ == ids_of(store@.by_freelancer, freelancer@),
{
    storage::get_invoices_by_freelancer(store, freelancer)
}

/// Returns all invoice ids recorded for a client.
pub fn get_invoices_by_client(store: &Store, client: &Address) -> (ids: Vec<u64>)
    requires
        store.wf(),
    ensures
        ids@ == ids_of(store@.by_client, client@),
{
    storage::get_invoices_by_client(store, client)
}

/// Returns the number of invoices created so far.
pub fn invoice_count(store: &Store) -> (n: u64)
    ensures
        n == store@.count,
{
    storage::get_invoice_count(store)
}

/// The stored invoices among ids `0..n` whose amount lies in `[min, max]`,
/// in increasing order of id.
pub open spec fn in_amount_range(s: StoreState, n: nat, min: i128, max: i128) -> Seq<InvoiceView>
    decreases n,
{
    if n == 0 {
        Seq::empty()
    } else {
        let earlier = in_amount_range(s, (n - 1) as nat, min, max);
        let id = (n - 1) as u64;
        if s.invoices.contains_key(id) && min <= s.invoices[id].amount <= max {
            earlier.push(s.invoices[id])
        } else {
            earlier
        }
    }
}

/// Returns every invoice, among the ids below the counter, whose amount lies
/// in `[min, max]` (both ends included), in increasing order of id.
pub fn get_invoices_by_amount_range(store: &Store, min: i128, max: i128) -> (r: Vec<Invoice>)
    ensures
        r@.map_values(|invoice: Invoice| invoice@) == in_amount_range(
            store@,
            store@.count as nat,
            min,
            max,
        ),
{
    let count = storage::get_invoice_count(store);
    let mut results: Vec<Invoice> = Vec::new();
    let mut id: u64 = 0;
    while id < count
        invariant
            id <= count,
            count == store@.count,
            results@.map_values(|invoice: Invoice| invoice@) == in_amount_range(
                store@,
                id as nat,
                min,
                max,
            ),
        decreases count - id,
    {
        match storage::get_invoice(store, id) {
            Ok(invoice) => {
                if invoice.amount >= min && invoice.amount <= max {
                    let ghost before = results@;
                    let ghost v = invoice@;
                    results.push(invoice);
                    assert(results@.map_values(|i: Invoice| i@) =~= before.map_values(
                        |i: Invoice| i@,
                    ).push(v));
                }
            },
            Err(_) => {},
        }
        id = id + 1;
    }
    results
}

} // verus!

verus! {

/// The amount-range query lists exactly the stored invoices below `n` whose
/// amount `a` (the stored `i128`) satisfies `min <= a <= max`: every such
/// invoice is listed, everything listed is a stored invoice with its amount in
/// the range, and an invoice whose amount is outside the range is not listed.
pub proof fn law_amount_range_exact(s: StoreState, n: nat, min: i128, max: i128)
    requires
        n <= u64::MAX + 1,
    ensures
        forall|id: u64|
            id < n && s.invoices.contains_key(id) && min <= s.invoices[id].amount && s.invoices[
                id
            ].amount <= max ==> #[trigger] in_amount_range(s, n, min, max).contains(
                s.invoices[id],
            ),
        forall|i: int|
            0 <= i < in_amount_range(s, n, min, max).len() ==> exists|id: u64|
                id < n && s.invoices.contains_key(id) && #[trigger] in_amount_range(
                    s,
                    n,
                    min,
                    max,
                )[i] == s.invoices[id],
        forall|i: int|
            0 <= i < in_amount_range(s, n, min, max).len() ==> min <= #[trigger] in_amount_range(
                s,
                n,
                min,
                max,
            )[i].amount <= max,
        forall|id: u64|
            id < n && s.invoices.contains_key(id) && !(min <= s.invoices[id].amount && s.invoices[
                id
            ].amount <= max) ==> !#[trigger] in_amount_range(s, n, min, max).contains(
                s.invoices[id],
            ),
    decreases n,
{
    let all = in_amount_range(s, n, min, max);
    if n > 0 {
        law_amount_range_exact(s, (n - 1) as nat, min, max);
        let earlier = in_amount_range(s, (n - 1) as nat, min, max);
        let last = (n - 1) as u64;
        assert forall|i: int| 0 <= i < earlier.len() implies all[i] == earlier[i] by {}
        assert forall|id: u64|
            id < n && s.invoices.contains_key(id) && min <= s.invoices[id].amount
                && s.invoices[id].amount <= max implies #[trigger] all.contains(s.invoices[id]) by {
            if id == last {
                assert(all[all.len() - 1] == s.invoices[id]);
            } else {
                assert(earlier.contains(s.invoices[id]));
                let k = choose|k: int| 0 <= k < earlier.len() && earlier[k] == s.invoices[id];
                assert(all[k] == s.invoices[id]);
            }
        }
        assert forall|i: int| 0 <= i < all.len() implies exists|id: u64|
            id < n && s.invoices.contains_key(id) && #[trigger] all[i] == s.invoices[id] by {
            if i < earlier.len() {
                assert(earlier[i] == all[i]);
                let id = choose|id: u64|
                    id < n - 1 && s.invoices.contains_key(id) && earlier[i] == s.invoices[id];
                assert(id < n && s.invoices.contains_key(id) && all[i] == s.invoices[id]);
            } else {
                assert(all[i] == s.invoices[last]);
            }
        }
        assert forall|i: int| 0 <= i < all.len() implies min <= #[trigger] all[i].amount <= max by {
            if i < earlier.len() {
                assert(earlier[i] == all[i]);
            }
        }
        assert forall|id: u64|
            id < n && s.invoices.contains_key(id) && !(min <= s.invoices[id].amount
                && s.invoices[id].amount <= max) implies !#[trigger] all.contains(
            s.invoices[id],
        ) by {
            if all.contains(s.invoices[id]) {
                let k = choose|k: int| 0 <= k < all.len() && all[k] == s.invoices[id];
                assert(min <= all[k].amount <= max);
            }
        }
    }
}

} // verus!
