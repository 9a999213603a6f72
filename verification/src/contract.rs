//! The contract: the store together with the invariant that its operations
//! keep, and the contract's entry points.
use crate::address::Address;
use crate::constants::{MAX_DESCRIPTION_LEN, MAX_INVOICE_AMOUNT, MAX_METADATA_URI_LEN};
use crate::escrow::{
    self, after, approval_outcome, balanced, cancellation_outcome, created, creation_check,
    creation_outcome, delivery_outcome, dispute_outcome, escrow_change, escrowed, funding_outcome,
    new_invoice, release_outcome, Outcome,
};
use crate::storage::{
    self, appended, ids_of, saved, ContractError, Invoice, InvoiceStatus, InvoiceView, Store,
    StoreState,
};
use crate::views::{self, in_amount_range};
use vstd::prelude::*;

verus! {

/// The two parties of an invoice.
pub enum Party {
    Freelancer,
    Client,
}

/// The address of `party` on `invoice`.
pub open spec fn party_of(invoice: InvoiceView, party: Party) -> Seq<char> {
    match party {
        Party::Freelancer => invoice.freelancer@,
        Party::Client => invoice.client@,
    }
}

/// The ids below `n`, in increasing order, of the invoices in `invoices`
/// whose `party` is `who`.
pub open spec fn ids_with(invoices: Map<u64, InvoiceView>, n: nat, party: Party, who: Seq<char>) -> Seq<
    u64,
>
    decreases n,
{
    if n == 0 {
        Seq::empty()
    } else {
        let earlier = ids_with(invoices, (n - 1) as nat, party, who);
        let id = (n - 1) as u64;
        if invoices.contains_key(id) && party_of(invoices[id], party) == who {
            earlier.push(id)
        } else {
            earlier
        }
    }
}

/// The index of `party` in a store.
pub open spec fn index_of(s: StoreState, party: Party) -> Map<Seq<char>, Seq<u64>> {
    match party {
        Party::Freelancer => s.by_freelancer,
        Party::Client => s.by_client,
    }
}

/// The terms that every invoice of the contract meets: a positive amount of
/// at most `MAX_INVOICE_AMOUNT`, two distinct parties, and a description and
/// metadata URI within their limits.
pub open spec fn valid_terms(invoice: InvoiceView) -> bool {
    &&& 0 < invoice.amount <= MAX_INVOICE_AMOUNT
    &&& invoice.freelancer@ != invoice.client@
    &&& invoice.description.len() <= MAX_DESCRIPTION_LEN
    &&& invoice.metadata_uri.len() <= MAX_METADATA_URI_LEN
}

/// The invariant of the contract's state: the ids in use are exactly those
/// below the counter, each invoice is stored under its own id and meets the
/// terms, and each party index lists, in increasing order, exactly the
/// invoices of that party.
pub open spec fn consistent(s: StoreState) -> bool {
    &&& forall|id: u64| #[trigger] s.invoices.contains_key(id) <==> id < s.count
    &&& forall|id: u64|
        #[trigger] s.invoices.contains_key(id) ==> s.invoices[id].id == id && valid_terms(
            s.invoices[id],
        )
    &&& forall|party: Party, who: Seq<char>|
        #[trigger] ids_of(index_of(s, party), who) == ids_with(
            s.invoices,
            s.count as nat,
            party,
            who,
        )
}

/// `ids_with` depends only on the invoices below `n` and on their parties.
proof fn lemma_ids_with_frame(
    a: Map<u64, InvoiceView>,
    b: Map<u64, InvoiceView>,
    n: nat,
    party: Party,
    who: Seq<char>,
)
    requires
        n <= u64::MAX + 1,
        forall|id: u64|
            id < n ==> (#[trigger] a.contains_key(id) <==> b.contains_key(id)),
        forall|id: u64|
            id < n && #[trigger] a.contains_key(id) ==> party_of(a[id], party) == party_of(
                b[id],
                party,
            ),
    ensures
        ids_with(a, n, party, who) == ids_with(b, n, party, who),
    decreases n,
{
    if n > 0 {
        lemma_ids_with_frame(a, b, (n - 1) as nat, party, who);
        let id = (n - 1) as u64;
        assert(a.contains_key(id) <==> b.contains_key(id));
    }
}

/// Every id that `ids_with` lists is below `n`.
proof fn lemma_ids_with_below(invoices: Map<u64, InvoiceView>, n: nat, party: Party, who: Seq<char>)
    requires
        n <= u64::MAX + 1,
    ensures
        forall|i: int|
            0 <= i < ids_with(invoices, n, party, who).len() ==> ids_with(
                invoices,
                n,
                party,
                who,
            )[i] < n,
    decreases n,
{
    if n > 0 {
        lemma_ids_with_below(invoices, (n - 1) as nat, party, who);
        let earlier = ids_with(invoices, (n - 1) as nat, party, who);
        let all = ids_with(invoices, n, party, who);
        assert forall|i: int| 0 <= i < all.len() implies all[i] < n by {
            if i < earlier.len() {
                assert(all[i] == earlier[i]);
            }
        }
    }
}

/// An invoice below `n` of party `who` is listed by `ids_with`.
proof fn lemma_ids_with_lists(
    invoices: Map<u64, InvoiceView>,
    n: nat,
    party: Party,
    who: Seq<char>,
    id: u64,
)
    requires
        n <= u64::MAX + 1,
        id < n,
        invoices.contains_key(id),
        party_of(invoices[id], party) == who,
    ensures
        ids_with(invoices, n, party, who).contains(id),
    decreases n,
{
    if id == n - 1 {
        let s = ids_with(invoices, n, party, who);
        assert(s[s.len() - 1] == id);
    } else {
        lemma_ids_with_lists(invoices, (n - 1) as nat, party, who, id);
        let earlier = ids_with(invoices, (n - 1) as nat, party, who);
        let k = choose|k: int| 0 <= k < earlier.len() && earlier[k] == id;
        let s = ids_with(invoices, n, party, who);
        assert(s[k] == id);
    }
}

/// Saving a new invoice under the counter's value, after the counter has
/// moved on, keeps the contract consistent.
proof fn lemma_create_keeps_consistent(s: StoreState, invoice: InvoiceView)
    requires
        consistent(s),
        s.count < u64::MAX,
        invoice.id == s.count,
        valid_terms(invoice),
    ensures
        consistent(created(s, invoice)),
{
    let t = created(s, invoice);
    let n = s.count as nat;
    assert forall|id: u64| #[trigger] t.invoices.contains_key(id) <==> id < t.count by {
        if id == s.count {
        } else {
            assert(t.invoices.contains_key(id) == s.invoices.contains_key(id));
        }
    }
    assert forall|party: Party, who: Seq<char>|
        #![auto]
        ids_of(index_of(t, party), who) == ids_with(t.invoices, t.count as nat, party, who) by {
        lemma_ids_with_frame(s.invoices, t.invoices, n, party, who);
        lemma_ids_with_below(s.invoices, n, party, who);
        let earlier = ids_with(s.invoices, n, party, who);
        assert(ids_of(index_of(s, party), who) == earlier) by {
            match party {
                Party::Freelancer => {},
                Party::Client => {},
            }
        }
        if party_of(invoice, party) == who {
            assert(!earlier.contains(invoice.id));
            assert(ids_with(t.invoices, t.count as nat, party, who) == earlier.push(invoice.id));
            match party {
                Party::Freelancer => {
                    assert(ids_of(t.by_freelancer, who) == appended(earlier, invoice.id));
                },
                Party::Client => {
                    assert(ids_of(t.by_client, who) == appended(earlier, invoice.id));
                },
            }
        } else {
            assert(ids_with(t.invoices, t.count as nat, party, who) == earlier);
            match party {
                Party::Freelancer => {
                    assert(ids_of(t.by_freelancer, who) == ids_of(s.by_freelancer, who));
                },
                Party::Client => {
                    assert(ids_of(t.by_client, who) == ids_of(s.by_client, who));
                },
            }
        }
    }
}

/// Saving a stored invoice again with another status keeps the contract
/// consistent.
proof fn lemma_status_change_keeps_consistent(
    s: StoreState,
    id: u64,
    status: InvoiceStatus,
)
    requires
        consistent(s),
        s.invoices.contains_key(id),
    ensures
        consistent(saved(s, s.invoices[id].with_status(status))),
{
    let invoice = s.invoices[id].with_status(status);
    let t = saved(s, invoice);
    let n = s.count as nat;
    assert forall|k: u64| #[trigger] t.invoices.contains_key(k) <==> k < t.count by {
        if k != id {
            assert(t.invoices.contains_key(k) == s.invoices.contains_key(k));
        }
    }
    assert forall|party: Party, who: Seq<char>|
        #![auto]
        ids_of(index_of(t, party), who) == ids_with(t.invoices, t.count as nat, party, who) by {
        lemma_ids_with_frame(s.invoices, t.invoices, n, party, who);
        let listed = ids_with(s.invoices, n, party, who);
        assert(ids_of(index_of(s, party), who) == listed) by {
            match party {
                Party::Freelancer => {},
                Party::Client => {},
            }
        }
        if party_of(invoice, party) == who {
            lemma_ids_with_lists(s.invoices, n, party, who, id);
            assert(appended(listed, id) == listed);
        }
        match party {
            Party::Freelancer => {},
            Party::Client => {},
        }
    }
}

} // verus!

verus! {

/// The invoice escrow contract: its persistent state and its entry points.
/// Each entry point returns what it decided; the host makes the token
/// transfer, checks the signer's authorisation and publishes the event.
pub struct InvoiceContract {
    store: Store,
}

impl View for InvoiceContract {
    type V = StoreState;

    closed spec fn view(&self) -> StoreState {
        self.store@
    }
}

impl InvoiceContract {
    /// The contract's invariant holds.
    pub closed spec fn wf(&self) -> bool {
        self.store.wf() && consistent(self.store@)
    }

    /// A well-formed contract's state is consistent.
    pub proof fn lemma_wf_consistent(&self)
        requires
            self.wf(),
        ensures
            consistent(self@),
    {
    }

    /// A contract with no invoices and no administrator.
    pub fn new() -> (c: InvoiceContract)
        ensures
            c.wf(),
            c@.invoices == Map::<u64, InvoiceView>::empty(),
            c@.count == 0,
            c@.by_freelancer == Map::<Seq<char>, Seq<u64>>::empty(),
            c@.by_client == Map::<Seq<char>, Seq<u64>>::empty(),
            c@.admin is None,
    {
        let c = InvoiceContract { store: Store::new() };
        assert forall|party: Party, who: Seq<char>|
            #[trigger] ids_of(index_of(c@, party), who) == ids_with(
                c@.invoices,
                c@.count as nat,
                party,
                who,
            ) by {
            match party {
                Party::Freelancer => {},
                Party::Client => {},
            }
        }
        c
    }

    /// Creates a pending invoice at time `now` on behalf of `freelancer`, and
    /// returns its id (the number of invoices created before it) with what
    /// the host has to do.
    pub fn create_invoice(
        &mut self,
        freelancer: Address,
        client: Address,
        amount: i128,
        token: Address,
        deadline: u64,
        title: Vec<u8>,
        description: Vec<u8>,
        metadata_uri: Vec<u8>,
        now: u64,
    ) -> (r: Result<(u64, Outcome), ContractError>)
        requires
            old(self).wf(),
            old(self)@.count < u64::MAX,
        ensures
            final(self).wf(),
            r is Err ==> final(self)@ == old(self)@,
            match creation_check(
                freelancer,
                client,
                amount,
                description@.len(),
                metadata_uri@.len(),
            ) {
                Err(e) => r == Err::<(u64, Outcome), ContractError>(e),
                Ok(_) => r == Ok::<(u64, Outcome), ContractError>(
                    (
                        old(self)@.count,
                        creation_outcome(old(self)@.count, freelancer, client, amount),
                    ),
                ) && final(self)@ == created(
                    old(self)@,
                    new_invoice(
                        old(self)@.count,
                        freelancer,
                        client,
                        amount,
                        token,
                        deadline,
                        title@,
                        description@,
                        now,
                        metadata_uri@,
                    ),
                ),
            },
    {
        let ghost s = self.store@;
        let ghost invoice = new_invoice(
            s.count,
            freelancer,
            client,
            amount,
            token,
            deadline,
            title@,
            description@,
            now,
            metadata_uri@,
        );
        let r = escrow::create_invoice_with_metadata(
            &mut self.store,
            freelancer,
            client,
            amount,
            token,
            deadline,
            title,
            description,
            metadata_uri,
            now,
        );
        proof {
            if r is Ok {
                lemma_create_keeps_consistent(s, invoice);
            }
        }
        r
    }

    /// Sets the administrator of a contract that has none yet.
    pub fn initialize(&mut self, admin: &Address)
        requires
            old(self).wf(),
            old(self)@.admin is None,
        ensures
            final(self).wf(),
            final(self)@ == (StoreState { admin: Some(*admin), ..old(self)@ }),
    {
        storage::set_admin(&mut self.store, admin);
        assert forall|party: Party, who: Seq<char>|
            #[trigger] ids_of(index_of(self@, party), who) == ids_with(
                self@.invoices,
                self@.count as nat,
                party,
                who,
            ) by {
            assert(ids_of(index_of(old(self)@, party), who) == ids_with(
                old(self)@.invoices,
                old(self)@.count as nat,
                party,
                who,
            ));
            match party {
                Party::Freelancer => {},
                Party::Client => {},
            }
        }
    }

    /// The administrator, if one has been set.
    pub fn get_admin(&self) -> (admin: Option<Address>)
        ensures
            admin == self@.admin,
    {
        storage::get_admin(&self.store)
    }

    /// Funds invoice `invoice_id` with `token_address` at time `now`.
    pub fn fund_invoice(&mut self, invoice_id: u64, token_address: &Address, now: u64) -> (r:
        Result<Outcome, ContractError>)
        requires
            old(self).wf(),
        ensures
            final(self).wf(),
            r is Err ==> final(self)@ == old(self)@,
            !old(self)@.invoices.contains_key(invoice_id) ==> r == Err::<Outcome, ContractError>(
                ContractError::InvoiceNotFound,
            ),
            old(self)@.invoices.contains_key(invoice_id) ==> r == funding_outcome(
                old(self)@.invoices[invoice_id],
                *token_address,
                now,
            ) && final(self)@ == after(old(self)@, invoice_id, r),
    {
        let r = escrow::fund_invoice(&mut self.store, invoice_id, token_address, now);
        proof {
            if r is Ok {
                lemma_status_change_keeps_consistent(old(self)@, invoice_id, r->Ok_0.status);
            }
        }
        r
    }

    /// Marks invoice `invoice_id` as delivered.
    pub fn mark_delivered(&mut self, invoice_id: u64) -> (r: Result<Outcome, ContractError>)
        requires
            old(self).wf(),
        ensures
            final(self).wf(),
            r is Err ==> final(self)@ == old(self)@,
            !old(self)@.invoices.contains_key(invoice_id) ==> r == Err::<Outcome, ContractError>(
                ContractError::InvoiceNotFound,
            ),
            old(self)@.invoices.contains_key(invoice_id) ==> r == delivery_outcome(
                old(self)@.invoices[invoice_id],
            ) && final(self)@ == after(old(self)@, invoice_id, r),
    {
        let r = escrow::mark_delivered(&mut self.store, invoice_id);
        proof {
            if r is Ok {
                lemma_status_change_keeps_consistent(old(self)@, invoice_id, r->Ok_0.status);
            }
        }
        r
    }

    /// Approves payment of invoice `invoice_id`.
    pub fn approve_payment(&mut self, invoice_id: u64) -> (r: Result<Outcome, ContractError>)
        requires
            old(self).wf(),
        ensures
            final(self).wf(),
            r is Err ==> final(self)@ == old(self)@,
            !old(self)@.invoices.contains_key(invoice_id) ==> r == Err::<Outcome, ContractError>(
                ContractError::InvoiceNotFound,
            ),
            old(self)@.invoices.contains_key(invoice_id) ==> r == approval_outcome(
                old(self)@.invoices[invoice_id],
            ) && final(self)@ == after(old(self)@, invoice_id, r),
    {
        let r = escrow::approve_payment(&mut self.store, invoice_id);
        proof {
            if r is Ok {
                lemma_status_change_keeps_consistent(old(self)@, invoice_id, r->Ok_0.status);
            }
        }
        r
    }

    /// Cancels invoice `invoice_id` on behalf of `caller`.
    pub fn cancel_invoice(&mut self, invoice_id: u64, caller: &Address) -> (r: Result<
        Outcome,
        ContractError,
    >)
        requires
            old(self).wf(),
        ensures
            final(self).wf(),
            r is Err ==> final(self)@ == old(self)@,
            !old(self)@.invoices.contains_key(invoice_id) ==> r == Err::<Outcome, ContractError>(
                ContractError::InvoiceNotFound,
            ),
            old(self)@.invoices.contains_key(invoice_id) ==> r == cancellation_outcome(
                old(self)@.invoices[invoice_id],
                *caller,
            ) && final(self)@ == after(old(self)@, invoice_id, r),
    {
        let r = escrow::cancel_invoice(&mut self.store, invoice_id, caller);
        proof {
            if r is Ok {
                lemma_status_change_keeps_consistent(old(self)@, invoice_id, r->Ok_0.status);
            }
        }
        r
    }

    /// Releases the escrowed payment of invoice `invoice_id` to its freelancer.
    pub fn release_payment(&mut self, invoice_id: u64) -> (r: Result<Outcome, ContractError>)
        requires
            old(self).wf(),
        ensures
            final(self).wf(),
            r is Err ==> final(self)@ == old(self)@,
            !old(self)@.invoices.contains_key(invoice_id) ==> r == Err::<Outcome, ContractError>(
                ContractError::InvoiceNotFound,
            ),
            old(self)@.invoices.contains_key(invoice_id) ==> r == release_outcome(
                old(self)@.invoices[invoice_id],
            ) && final(self)@ == after(old(self)@, invoice_id, r),
    {
        let r = escrow::release_payment(&mut self.store, invoice_id);
        proof {
            if r is Ok {
                lemma_status_change_keeps_consistent(old(self)@, invoice_id, r->Ok_0.status);
            }
        }
        r
    }

    /// Disputes invoice `invoice_id`.
    pub fn dispute_invoice(&mut self, invoice_id: u64) -> (r: Result<Outcome, ContractError>)
        requires
            old(self).wf(),
        ensures
            final(self).wf(),
            r is Err ==> final(self)@ == old(self)@,
            !old(self)@.invoices.contains_key(invoice_id) ==> r == Err::<Outcome, ContractError>(
                ContractError::InvoiceNotFound,
            ),
            old(self)@.invoices.contains_key(invoice_id) ==> r == dispute_outcome(
                old(self)@.invoices[invoice_id],
            ) && final(self)@ == after(old(self)@, invoice_id, r),
    {
        let r = escrow::dispute_invoice(&mut self.store, invoice_id);
        proof {
            if r is Ok {
                lemma_status_change_keeps_consistent(old(self)@, invoice_id, r->Ok_0.status);
            }
        }
        r
    }

    /// Retrieves an invoice by id.
    pub fn get_invoice(&self, invoice_id: u64) -> (r: Result<Invoice, ContractError>)
        ensures
            match r {
                Ok(invoice) => self@.invoices.contains_key(invoice_id) && invoice@
                    == self@.invoices[invoice_id],
                Err(e) => !self@.invoices.contains_key(invoice_id) && e
                    == ContractError::InvoiceNotFound,
            },
    {
        views::get_invoice(&self.store, invoice_id)
    }

    /// The ids of the invoices of `freelancer`, in the order they were created.
    pub fn get_invoices_by_freelancer(&self, freelancer: &Address) -> (ids: Vec<u64>)
        requires
            self.wf(),
        ensures
            ids@ == ids_with(self@.invoices, self@.count as nat, Party::Freelancer, freelancer@),
    {
        let ids = views::get_invoices_by_freelancer(&self.store, freelancer);
        assert(ids_of(index_of(self@, Party::Freelancer), freelancer@) == ids_with(
            self@.invoices,
            self@.count as nat,
            Party::Freelancer,
            freelancer@,
        ));
        ids
    }

    /// The ids of the invoices of `client`, in the order they were created.
    pub fn get_invoices_by_client(&self, client: &Address) -> (ids: Vec<u64>)
        requires
            self.wf(),
        ensures
            ids@ == ids_with(self@.invoices, self@.count as nat, Party::Client, client@),
    {
        let ids = views::get_invoices_by_client(&self.store, client);
        assert(ids_of(index_of(self@, Party::Client), client@) == ids_with(
            self@.invoices,
            self@.count as nat,
            Party::Client,
            client@,
        ));
        ids
    }

    /// The number of invoices created so far.
    pub fn invoice_count(&self) -> (n: u64)
        ensures
            n == self@.count,
    {
        views::invoice_count(&self.store)
    }

    /// Every invoice whose amount lies in `[min, max]`, in increasing order of id.
    pub fn get_invoices_by_amount_range(&self, min: i128, max: i128) -> (r: Vec<Invoice>)
        ensures
            r@.map_values(|invoice: Invoice| invoice@) == in_amount_range(
                self@,
                self@.count as nat,
                min,
                max,
            ),
    {
        views::get_invoices_by_amount_range(&self.store, min, max)
    }
}

} // verus!

verus! {

/// What an invoice contributes to the escrow of `token`.
pub open spec fn escrow_of(invoices: Map<u64, InvoiceView>, id: u64, token: Seq<char>) -> int {
    if invoices.contains_key(id) && invoices[id].token@ == token {
        escrowed(invoices[id].status, invoices[id].amount)
    } else {
        0
    }
}

/// The total that the invoices below `n` hold in escrow in `token`.
pub open spec fn total_escrow(invoices: Map<u64, InvoiceView>, n: nat, token: Seq<char>) -> int
    decreases n,
{
    if n == 0 {
        0
    } else {
        total_escrow(invoices, (n - 1) as nat, token) + escrow_of(invoices, (n - 1) as u64, token)
    }
}

/// Changing the invoice under one id below `n` changes the total by the
/// change of that invoice's share.
proof fn lemma_total_escrow_one_change(
    a: Map<u64, InvoiceView>,
    b: Map<u64, InvoiceView>,
    n: nat,
    id: u64,
    token: Seq<char>,
)
    requires
        n <= u64::MAX + 1,
        forall|k: u64| k != id ==> #[trigger] escrow_of(a, k, token) == escrow_of(b, k, token),
    ensures
        id < n ==> total_escrow(b, n, token) == total_escrow(a, n, token) + escrow_of(b, id, token)
            - escrow_of(a, id, token),
        id >= n ==> total_escrow(b, n, token) == total_escrow(a, n, token),
    decreases n,
{
    if n > 0 {
        lemma_total_escrow_one_change(a, b, (n - 1) as nat, id, token);
        assert(escrow_of(a, (n - 1) as u64, token) == escrow_of(b, (n - 1) as u64, token) || id == (
        n - 1) as u64);
    }
}

/// What the contract holds in escrow changes by exactly what a successful
/// operation's transfer moves: funding adds the invoice's amount to the escrow of its
/// token, release takes it out, and nothing else moves any token.
pub proof fn law_escrow_conserved(
    s: StoreState,
    id: u64,
    r: Result<Outcome, ContractError>,
    token: Seq<char>,
    token_address: Address,
    now: u64,
    caller: Address,
)
    requires
        consistent(s),
        s.invoices.contains_key(id),
        r is Ok,
        ({
            let inv = s.invoices[id];
            ||| r == funding_outcome(inv, token_address, now)
            ||| r == delivery_outcome(inv)
            ||| r == approval_outcome(inv)
            ||| r == cancellation_outcome(inv, caller)
            ||| r == release_outcome(inv)
            ||| r == dispute_outcome(inv)
        }),
    ensures
        total_escrow(after(s, id, r).invoices, s.count as nat, token) == total_escrow(
            s.invoices,
            s.count as nat,
            token,
        ) + escrow_change(r->Ok_0.transfer, token),
{
    let o = r->Ok_0;
    let inv = s.invoices[id];
    escrow::law_escrow_balanced(inv, token_address, now, caller);
    assert(balanced(inv, o));
    let b = after(s, id, r).invoices;
    assert(b == s.invoices.insert(id, inv.with_status(o.status)));
    assert forall|k: u64| k != id implies #[trigger] escrow_of(s.invoices, k, token) == escrow_of(
        b,
        k,
        token,
    ) by {}
    lemma_total_escrow_one_change(s.invoices, b, s.count as nat, id, token);
    if inv.token@ != token {
        assert(escrow_change(o.transfer, token) == 0);
    }
}

/// Creating an invoice moves no funds: a pending invoice holds nothing in escrow.
pub proof fn law_creation_holds_nothing(s: StoreState, invoice: InvoiceView, token: Seq<char>)
    requires
        consistent(s),
        s.count < u64::MAX,
        invoice.id == s.count,
        invoice.status == InvoiceStatus::Pending,
    ensures
        total_escrow(created(s, invoice).invoices, (s.count + 1) as nat, token) == total_escrow(
            s.invoices,
            s.count as nat,
            token,
        ),
{
    let b = created(s, invoice).invoices;
    assert(b == s.invoices.insert(s.count, invoice));
    assert forall|k: u64| k != s.count implies #[trigger] escrow_of(s.invoices, k, token)
        == escrow_of(b, k, token) by {}
    lemma_total_escrow_one_change(s.invoices, b, s.count as nat, s.count, token);
    assert(!s.invoices.contains_key(s.count));
}

} // verus!

verus! {

/// A party's index lists each of its invoices once, in increasing order of id.
pub proof fn law_party_index_increasing(
    invoices: Map<u64, InvoiceView>,
    n: nat,
    party: Party,
    who: Seq<char>,
)
    requires
        n <= u64::MAX + 1,
    ensures
        forall|i: int, j: int|
            0 <= i < j < ids_with(invoices, n, party, who).len() ==> ids_with(
                invoices,
                n,
                party,
                who,
            )[i] < ids_with(invoices, n, party, who)[j],
    decreases n,
{
    if n > 0 {
        law_party_index_increasing(invoices, (n - 1) as nat, party, who);
        lemma_ids_with_below(invoices, (n - 1) as nat, party, who);
        let earlier = ids_with(invoices, (n - 1) as nat, party, who);
        let all = ids_with(invoices, n, party, who);
        assert forall|i: int, j: int| 0 <= i < j < all.len() implies all[i] < all[j] by {
            assert(all[i] == earlier[i]);
            if j < earlier.len() {
                assert(all[j] == earlier[j]);
            }
        }
    }
}

} // verus!

verus! {

/// How many of the first `i` calls created an invoice.
pub open spec fn creations(calls: Seq<Option<InvoiceView>>, i: int) -> nat
    decreases i,
{
    if i <= 0 {
        0
    } else {
        creations(calls, i - 1) + if calls[i - 1] is Some {
            1nat
        } else {
            0nat
        }
    }
}

/// A run of calls from a fresh contract: `states[i + 1]` is the state after
/// call `i`, and `calls[i]` is the invoice that the call created, if any. A
/// creating call saves its invoice under the counter (as `create_invoice`
/// does); every other call, failed or not, leaves the counter alone (as every
/// entry point other than a successful `create_invoice` does).
pub open spec fn run_from_fresh(states: Seq<StoreState>, calls: Seq<Option<InvoiceView>>) -> bool {
    &&& states.len() == calls.len() + 1
    &&& states[0].count == 0
    &&& forall|i: int|
        0 <= i < calls.len() ==> match #[trigger] calls[i] {
            Some(invoice) => invoice.id == states[i].count && states[i].count < u64::MAX
                && states[i + 1] == created(states[i], invoice),
            None => states[i + 1].count == states[i].count,
        }
}

/// Counting more calls never counts fewer creations.
proof fn lemma_creations_grow(calls: Seq<Option<InvoiceView>>, i: int, j: int)
    requires
        0 <= i <= j <= calls.len(),
    ensures
        creations(calls, i) <= creations(calls, j),
    decreases j - i,
{
    if i < j {
        lemma_creations_grow(calls, i, j - 1);
    }
}

/// After the first `k` calls of a run, the counter is the number of invoices
/// those calls created.
proof fn lemma_run_counter(states: Seq<StoreState>, calls: Seq<Option<InvoiceView>>, k: int)
    requires
        run_from_fresh(states, calls),
        0 <= k <= calls.len(),
    ensures
        states[k].count == creations(calls, k),
    decreases k,
{
    if k > 0 {
        lemma_run_counter(states, calls, k - 1);
        let c = calls[k - 1];
        if c is Some {
            assert(states[k] == created(states[k - 1], c->0));
        }
    }
}

/// Invoice ids are handed out in call order from a fresh contract: the
/// invoice of the n-th successful creation gets id n (0, 1, 2, ...), so the
/// ids are pairwise distinct and increasing, failed calls and the other
/// operations consume no id, and the counter always equals the number of
/// invoices created.
pub proof fn law_ids_sequential(states: Seq<StoreState>, calls: Seq<Option<InvoiceView>>)
    requires
        run_from_fresh(states, calls),
    ensures
        forall|k: int| 0 <= k <= calls.len() ==> #[trigger] states[k].count == creations(calls, k),
        forall|i: int|
            0 <= i < calls.len() && #[trigger] calls[i] is Some ==> calls[i]->0.id == creations(
                calls,
                i,
            ),
        forall|i: int, j: int|
            0 <= i < j < calls.len() && #[trigger] calls[i] is Some && #[trigger] calls[j] is Some
                ==> calls[i]->0.id < calls[j]->0.id,
{
    assert forall|k: int| 0 <= k <= calls.len() implies #[trigger] states[k].count == creations(
        calls,
        k,
    ) by {
        lemma_run_counter(states, calls, k);
    }
    assert forall|i: int|
        0 <= i < calls.len() && #[trigger] calls[i] is Some implies calls[i]->0.id == creations(
        calls,
        i,
    ) by {
        lemma_run_counter(states, calls, i);
    }
    assert forall|i: int, j: int|
        0 <= i < j < calls.len() && #[trigger] calls[i] is Some && #[trigger] calls[j] is Some
            implies calls[i]->0.id < calls[j]->0.id by {
        lemma_run_counter(states, calls, i);
        lemma_run_counter(states, calls, j);
        lemma_creations_grow(calls, i + 1, j);
        assert(creations(calls, i + 1) == creations(calls, i) + 1);
    }
}

} // verus!
