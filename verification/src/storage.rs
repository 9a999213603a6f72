use crate::address::Address;
use std::collections::HashMap;
use vstd::prelude::*;

verus! {

/// Errors that the contract's operations return.
#[derive(Clone, Copy, Debug, PartialEq, Eq, Structural)]
pub enum ContractError {
    /// The invoice does not exist.
    InvoiceNotFound,
    /// The invoice is not in the required status for this operation.
    InvalidInvoiceStatus,
    /// The caller is not authorised to perform this operation.
    UnauthorizedCaller,
    /// The description exceeds the maximum allowed length.
    DescriptionTooLong,
    /// The token provided does not match the invoice's token.
    TokenMismatch,
    /// The amount is zero or negative.
    InvalidAmount,
    /// The amount is above `MAX_INVOICE_AMOUNT`.
    AmountExceedsMaximum,
    /// The freelancer and the client are the same party.
    InvalidParties,
    /// The metadata URI exceeds the maximum allowed length.
    MetadataUriTooLong,
    /// The invoice's funding deadline has passed.
    InvoiceExpired,
}

/// Lifecycle state of an invoice.
#[derive(Clone, Copy, Debug, PartialEq, Eq, Structural)]
pub enum InvoiceStatus {
    /// Invoice created, awaiting client funding.
    Pending,
    /// Client has deposited funds into escrow.
    Funded,
    /// Freelancer has marked work as delivered.
    Delivered,
    /// Client disputes the invoice.
    Disputed,
    /// Client has approved the delivery.
    Approved,
    /// Funds have been released to the freelancer.
    Completed,
    /// Invoice has been voided by the freelancer or client.
    Cancelled,
}

} // verus!

verus! {

/// Core invoice data kept by the contract. Texts are byte strings, as the
/// host stores them.
#[derive(Debug)]
pub struct Invoice {
    /// Unique numeric identifier for this invoice.
    pub id: u64,
    /// Address of the freelancer who created the invoice.
    pub freelancer: Address,
    /// Address of the client responsible for funding.
    pub client: Address,
    /// Payment amount in the smallest token unit.
    pub amount: i128,
    /// Short human-readable title for the invoice.
    pub title: Vec<u8>,
    /// Human-readable description of the work to be performed.
    pub description: Vec<u8>,
    /// Address of the token contract used for payment.
    pub token: Address,
    /// Timestamp after which the invoice can no longer be funded.
    pub deadline: u64,
    /// Timestamp when the invoice was created.
    pub created_at: u64,
    /// Current state of the invoice in the escrow lifecycle.
    pub status: InvoiceStatus,
    /// Link to off-chain metadata; empty when there is none.
    pub metadata_uri: Vec<u8>,
}

/// An invoice as a mathematical value.
pub struct InvoiceView {
    pub id: u64,
    pub freelancer: Address,
    pub client: Address,
    pub amount: i128,
    pub title: Seq<u8>,
    pub description: Seq<u8>,
    pub token: Address,
    pub deadline: u64,
    pub created_at: u64,
    pub status: InvoiceStatus,
    pub metadata_uri: Seq<u8>,
}

impl View for Invoice {
    type V = InvoiceView;

    open spec fn view(&self) -> InvoiceView {
        InvoiceView {
            id: self.id,
            freelancer: self.freelancer,
            client: self.client,
            amount: self.amount,
            title: self.title@,
            description: self.description@,
            token: self.token,
            deadline: self.deadline,
            created_at: self.created_at,
            status: self.status,
            metadata_uri: self.metadata_uri@,
        }
    }
}

/// A copy of a byte string.
pub fn copy_bytes(bytes: &Vec<u8>) -> (c: Vec<u8>)
    ensures
        c@ == bytes@,
{
    let mut c: Vec<u8> = Vec::new();
    let mut i: usize = 0;
    while i < bytes.len()
        invariant
            0 <= i <= bytes.len(),
            c@ == bytes@.subrange(0, i as int),
        decreases bytes.len() - i,
    {
        c.push(bytes[i]);
        i = i + 1;
        assert(c@ =~= bytes@.subrange(0, i as int));
    }
    assert(bytes@.subrange(0, bytes@.len() as int) =~= bytes@);
    c
}

impl Clone for Invoice {
    fn clone(&self) -> (c: Self)
        ensures
            c@ == self@,
    {
        Invoice {
            id: self.id,
            freelancer: self.freelancer.clone(),
            client: self.client.clone(),
            amount: self.amount,
            title: copy_bytes(&self.title),
            description: copy_bytes(&self.description),
            token: self.token.clone(),
            deadline: self.deadline,
            created_at: self.created_at,
            status: self.status,
            metadata_uri: copy_bytes(&self.metadata_uri),
        }
    }
}

impl InvoiceView {
    /// This invoice with its status replaced.
    pub open spec fn with_status(self, status: InvoiceStatus) -> InvoiceView {
        InvoiceView { status, ..self }
    }
}

/// Two invoices agree on everything but their status: id, parties, amount,
/// texts, token, deadline and creation time.
pub open spec fn same_terms(a: InvoiceView, b: InvoiceView) -> bool {
    &&& a.id == b.id
    &&& a.freelancer == b.freelancer
    &&& a.client == b.client
    &&& a.amount == b.amount
    &&& a.title == b.title
    &&& a.description == b.description
    &&& a.token == b.token
    &&& a.deadline == b.deadline
    &&& a.created_at == b.created_at
    &&& a.metadata_uri == b.metadata_uri
}

/// The invoice ids recorded for one address.
pub struct IndexEntry {
    owner: Address,
    ids: Vec<u64>,
}

/// What the store holds, as mathematical values.
pub struct StoreState {
    /// Every stored invoice, by id.
    pub invoices: Map<u64, InvoiceView>,
    /// The invoice counter: the id that the next invoice gets.
    pub count: u64,
    /// The ids recorded for each freelancer, in the order they were recorded.
    pub by_freelancer: Map<Seq<char>, Seq<u64>>,
    /// The ids recorded for each client, in the order they were recorded.
    pub by_client: Map<Seq<char>, Seq<u64>>,
    /// The contract's administrator, once set.
    pub admin: Option<Address>,
}

/// The ids that an index holds for `key`: none where it holds no entry.
pub open spec fn ids_of(index: Map<Seq<char>, Seq<u64>>, key: Seq<char>) -> Seq<u64> {
    if index.contains_key(key) {
        index[key]
    } else {
        Seq::empty()
    }
}

/// `ids` with `id` added at the end, unless it is already there.
pub open spec fn appended(ids: Seq<u64>, id: u64) -> Seq<u64> {
    if ids.contains(id) {
        ids
    } else {
        ids.push(id)
    }
}

/// An index after `id` has been recorded for `key`.
pub open spec fn index_with(index: Map<Seq<char>, Seq<u64>>, key: Seq<char>, id: u64) -> Map<
    Seq<char>,
    Seq<u64>,
> {
    index.insert(key, appended(ids_of(index, key), id))
}

/// The store after `invoice` has been saved: kept under its id and recorded in
/// the indexes of its freelancer and of its client.
pub open spec fn saved(s: StoreState, invoice: InvoiceView) -> StoreState {
    StoreState {
        invoices: s.invoices.insert(invoice.id, invoice),
        by_freelancer: index_with(s.by_freelancer, invoice.freelancer@, invoice.id),
        by_client: index_with(s.by_client, invoice.client@, invoice.id),
        ..s
    }
}

/// The map that a list of index entries stands for.
pub closed spec fn index_view(entries: Seq<IndexEntry>) -> Map<Seq<char>, Seq<u64>> {
    Map::new(
        |k: Seq<char>| exists|i: int| 0 <= i < entries.len() && entries[i].owner@ == k,
        |k: Seq<char>|
            entries[choose|i: int| 0 <= i < entries.len() && entries[i].owner@ == k].ids@,
    )
}

/// No two entries of the list belong to the same address.
pub closed spec fn owners_distinct(entries: Seq<IndexEntry>) -> bool {
    forall|i: int, j: int|
        0 <= i < entries.len() && 0 <= j < entries.len() && i != j ==> entries[i].owner@
            != entries[j].owner@
}

/// The contract's persistent data: invoices by id, the invoice counter, the
/// per-party indexes and the administrator.
pub struct Store {
    invoices: HashMap<u64, Invoice>,
    count: u64,
    by_freelancer: Vec<IndexEntry>,
    by_client: Vec<IndexEntry>,
    admin: Option<Address>,
}

impl View for Store {
    type V = StoreState;

    closed spec fn view(&self) -> StoreState {
        StoreState {
            invoices: self.invoices@.map_values(|invoice: Invoice| invoice@),
            count: self.count,
            by_freelancer: index_view(self.by_freelancer@),
            by_client: index_view(self.by_client@),
            admin: self.admin,
        }
    }
}

impl Store {
    /// The representation is sound: each index holds one entry per address.
    pub closed spec fn wf(&self) -> bool {
        &&& owners_distinct(self.by_freelancer@)
        &&& owners_distinct(self.by_client@)
    }

    /// An empty store.
    pub fn new() -> (s: Store)
        ensures
            s.wf(),
            s@.invoices == Map::<u64, InvoiceView>::empty(),
            s@.count == 0,
            s@.by_freelancer == Map::<Seq<char>, Seq<u64>>::empty(),
            s@.by_client == Map::<Seq<char>, Seq<u64>>::empty(),
            s@.admin is None,
    {
        let s = Store {
            invoices: HashMap::new(),
            count: 0,
            by_freelancer: Vec::new(),
            by_client: Vec::new(),
            admin: None,
        };
        assert(s@.invoices =~= Map::<u64, InvoiceView>::empty());
        assert(index_view(s.by_freelancer@) =~= Map::<Seq<char>, Seq<u64>>::empty());
        assert(index_view(s.by_client@) =~= Map::<Seq<char>, Seq<u64>>::empty());
        s
    }
}

/// Adds `id` at the end of `ids` unless it is already there.
pub fn append_unique(ids: &mut Vec<u64>, id: u64)
    ensures
        final(ids)@ == appended(old(ids)@, id),
{
    let mut i: usize = 0;
    while i < ids.len()
        invariant
            0 <= i <= ids.len(),
            ids@ == old(ids)@,
            forall|j: int| 0 <= j < i ==> ids@[j] != id,
        decreases ids.len() - i,
    {
        if ids[i] == id {
            assert(ids@.contains(id));
            return;
        }
        i = i + 1;
    }
    assert(!ids@.contains(id));
    ids.push(id);
}

/// Where the entry for `owner` stands in `entries`, if it has one.
fn find_entry(entries: &Vec<IndexEntry>, owner: &Address) -> (r: Option<usize>)
    ensures
        match r {
            Some(i) => i < entries@.len() && entries@[i as int].owner@ == owner@,
            None => forall|i: int| 0 <= i < entries@.len() ==> entries@[i].owner@ != owner@,
        },
{
    let mut i: usize = 0;
    while i < entries.len()
        invariant
            0 <= i <= entries.len(),
            forall|j: int| 0 <= j < i ==> entries@[j].owner@ != owner@,
        decreases entries.len() - i,
    {
        if entries[i].owner == *owner {
            return Some(i);
        }
        i = i + 1;
    }
    None
}

/// A copy of a list of ids.
fn copy_ids(ids: &Vec<u64>) -> (c: Vec<u64>)
    ensures
        c@ == ids@,
{
    let mut c: Vec<u64> = Vec::new();
    let mut i: usize = 0;
    while i < ids.len()
        invariant
            0 <= i <= ids.len(),
            c@ == ids@.subrange(0, i as int),
        decreases ids.len() - i,
    {
        c.push(ids[i]);
        i = i + 1;
        assert(c@ =~= ids@.subrange(0, i as int));
    }
    assert(ids@.subrange(0, ids@.len() as int) =~= ids@);
    c
}

/// The ids that `entries` holds for `owner`.
fn lookup_ids(entries: &Vec<IndexEntry>, owner: &Address) -> (r: Vec<u64>)
    requires
        owners_distinct(entries@),
    ensures
        r@ == ids_of(index_view(entries@), owner@),
{
    match find_entry(entries, owner) {
        Some(i) => {
            let ghost k = owner@;
            assert(index_view(entries@).contains_key(k));
            let ghost c = choose|j: int| 0 <= j < entries@.len() && entries@[j].owner@ == k;
            assert(c == i);
            copy_ids(&entries[i].ids)
        },
        None => {
            assert(!index_view(entries@).contains_key(owner@));
            Vec::new()
        },
    }
}

/// Replacing the entry of `key` (or adding one at the end) changes the map
/// that the list stands for at `key` only.
proof fn lemma_index_view_update(
    before: Seq<IndexEntry>,
    after: Seq<IndexEntry>,
    key: Seq<char>,
    i: int,
)
    requires
        owners_distinct(before),
        0 <= i < after.len(),
        after[i].owner@ == key,
        i < before.len() ==> before[i].owner@ == key,
        i == before.len() ==> forall|j: int| 0 <= j < before.len() ==> before[j].owner@ != key,
        after.len() == before.len() || (after.len() == before.len() + 1 && i == before.len()),
        forall|j: int| 0 <= j < after.len() && j != i ==> after[j] == before[j],
    ensures
        owners_distinct(after),
        index_view(after) == index_view(before).insert(key, after[i].ids@),
{
    let target = index_view(before).insert(key, after[i].ids@);
    assert forall|x: int, y: int|
        0 <= x < after.len() && 0 <= y < after.len() && x != y implies after[x].owner@
        != after[y].owner@ by {
        if x != i {
            assert(after[x] == before[x]);
        }
        if y != i {
            assert(after[y] == before[y]);
        }
    }
    assert forall|k2: Seq<char>|
        #![auto]
        index_view(after).contains_key(k2) == target.contains_key(k2) by {
        if k2 == key {
            assert(after[i].owner@ == k2);
        } else {
            if exists|j: int| 0 <= j < before.len() && before[j].owner@ == k2 {
                let j = choose|j: int| 0 <= j < before.len() && before[j].owner@ == k2;
                assert(j != i);
                assert(after[j] == before[j]);
            }
            if exists|j: int| 0 <= j < after.len() && after[j].owner@ == k2 {
                let j = choose|j: int| 0 <= j < after.len() && after[j].owner@ == k2;
                assert(after[j] == before[j]);
            }
        }
    }
    assert forall|k2: Seq<char>|
        #![auto]
        index_view(after).contains_key(k2) implies index_view(after)[k2] == target[k2] by {
        let j = choose|j: int| 0 <= j < after.len() && after[j].owner@ == k2;
        if k2 != key {
            assert(after[j] == before[j]);
            let c = choose|c: int| 0 <= c < before.len() && before[c].owner@ == k2;
            assert(c == j);
        }
    }
    assert(index_view(after) =~= target);
}

/// Records `id` for `owner` in `entries`.
fn record_id(entries: &mut Vec<IndexEntry>, owner: &Address, id: u64)
    requires
        owners_distinct(old(entries)@),
    ensures
        owners_distinct(final(entries)@),
        index_view(final(entries)@) == index_with(index_view(old(entries)@), owner@, id),
{
    let ghost k = owner@;
    match find_entry(entries, owner) {
        Some(i) => {
            let ghost c = choose|j: int| 0 <= j < entries@.len() && entries@[j].owner@ == k;
            assert(c == i);
            let mut ids = copy_ids(&entries[i].ids);
            append_unique(&mut ids, id);
            let entry = IndexEntry { owner: owner.clone(), ids };
            entries.set(i, entry);
            proof {
                lemma_index_view_update(old(entries)@, entries@, k, i as int);
            }
        },
        None => {
            assert(!index_view(entries@).contains_key(k));
            let mut ids: Vec<u64> = Vec::new();
            ids.push(id);
            let entry = IndexEntry { owner: owner.clone(), ids };
            entries.push(entry);
            proof {
                lemma_index_view_update(old(entries)@, entries@, k, old(entries)@.len() as int);
                assert(entries@[old(entries)@.len() as int].ids@ =~= seq![id]);
            }
        },
    }
}

} // verus!

verus! {

/// Returns the current invoice count.
pub fn get_invoice_count(store: &Store) -> (n: u64)
    ensures
        n == store@.count,
{
    store.count
}

/// Returns the next available invoice id and increments the counter.
pub fn next_invoice_id(store: &mut Store) -> (id: u64)
    requires
        old(store).wf(),
        old(store)@.count < u64::MAX,
    ensures
        final(store).wf(),
        id == old(store)@.count,
        final(store)@ == (StoreState { count: (id + 1) as u64, ..old(store)@ }),
{
    let id = store.count;
    store.count = id + 1;
    id
}

/// Persists an invoice under its id and records the id in the indexes of its
/// freelancer and of its client.
pub fn save_invoice(store: &mut Store, invoice: &Invoice)
    requires
        old(store).wf(),
    ensures
        final(store).wf(),
        final(store)@ == saved(old(store)@, invoice@),
{
    broadcast use vstd::std_specs::hash::group_hash_axioms;

    let copy = invoice.clone();
    store.invoices.insert(invoice.id, copy);
    assert(store.invoices@.map_values(|i: Invoice| i@) =~= old(store).invoices@.map_values(
        |i: Invoice| i@,
    ).insert(invoice.id, invoice@));
    record_id(&mut store.by_freelancer, &invoice.freelancer, invoice.id);
    record_id(&mut store.by_client, &invoice.client, invoice.id);
}

/// Retrieves an invoice by id.
pub fn get_invoice(store: &Store, invoice_id: u64) -> (r: Result<Invoice, ContractError>)
    ensures
        match r {
            Ok(invoice) => store@.invoices.contains_key(invoice_id) && invoice@
                == store@.invoices[invoice_id],
            Err(e) => !store@.invoices.contains_key(invoice_id) && e
                == ContractError::InvoiceNotFound,
        },
{
    broadcast use vstd::std_specs::hash::group_hash_axioms;

    match store.invoices.get(&invoice_id) {
        Some(invoice) => Ok(invoice.clone()),
        None => Err(ContractError::InvoiceNotFound),
    }
}

/// Sets the status of a stored invoice and saves it again; does nothing to
/// an id that holds no invoice.
pub fn update_invoice_status(store: &mut Store, invoice_id: u64, status: InvoiceStatus)
    requires
        old(store).wf(),
    ensures
        final(store).wf(),
        old(store)@.invoices.contains_key(invoice_id) ==> final(store)@ == saved(
            old(store)@,
            old(store)@.invoices[invoice_id].with_status(status),
        ),
        !old(store)@.invoices.contains_key(invoice_id) ==> final(store)@ == old(store)@,
{
    match get_invoice(store, invoice_id) {
        Ok(invoice) => {
            let mut invoice = invoice;
            invoice.status = status;
            save_invoice(store, &invoice);
        },
        Err(_) => {},
    }
}

/// Returns all invoice ids recorded for a freelancer.
pub fn get_invoices_by_freelancer(store: &Store, freelancer: &Address) -> (ids: Vec<u64>)
    requires
        store.wf(),
    ensures
        ids@ == ids_of(store@.by_freelancer, freelancer@),
{
    lookup_ids(&store.by_freelancer, freelancer)
}

/// Returns all invoice ids recorded for a client.
pub fn get_invoices_by_client(store: &Store, client: &Address) -> (ids: Vec<u64>)
    requires
        store.wf(),
    ensures
        ids@ == ids_of(store@.by_client, client@),
{
    lookup_ids(&store.by_client, client)
}

/// Returns the administrator, if one has been set.
pub fn get_admin(store: &Store) -> (admin: Option<Address>)
    ensures
        admin == store@.admin,
{
    match &store.admin {
        Some(a) => Some(a.clone()),
        None => None,
    }
}

/// Sets the administrator.
pub fn set_admin(store: &mut Store, admin: &Address)
    requires
        old(store).wf(),
    ensures
        final(store).wf(),
        final(store)@ == (StoreState { admin: Some(*admin), ..old(store)@ }),
{
    store.admin = Some(admin.clone());
}

} // verus!

verus! {

/// A read gives back what a write wrote: after an invoice is saved, its id
/// holds exactly that invoice and stands in the indexes of both its parties,
/// while every other id holds what it held before.
pub proof fn law_read_after_save(s: StoreState, invoice: InvoiceView, other: u64)
    ensures
        saved(s, invoice).invoices.contains_key(invoice.id),
        saved(s, invoice).invoices[invoice.id] == invoice,
        other != invoice.id ==> saved(s, invoice).invoices.contains_key(other)
            == s.invoices.contains_key(other),
        other != invoice.id && s.invoices.contains_key(other) ==> saved(s, invoice).invoices[other]
            == s.invoices[other],
        ids_of(saved(s, invoice).by_freelancer, invoice.freelancer@).contains(invoice.id),
        ids_of(saved(s, invoice).by_client, invoice.client@).contains(invoice.id),
{
    let f = ids_of(s.by_freelancer, invoice.freelancer@);
    if !f.contains(invoice.id) {
        assert(f.push(invoice.id)[f.len() as int] == invoice.id);
    }
    let c = ids_of(s.by_client, invoice.client@);
    if !c.contains(invoice.id) {
        assert(c.push(invoice.id)[c.len() as int] == invoice.id);
    }
}

} // verus!

verus! {

/// Updating the status of a stored invoice (as `update_invoice_status` does)
/// leaves every other field of it as it was, gives it exactly the new status,
/// and leaves every other stored invoice alone.
pub proof fn law_status_update_keeps_terms(s: StoreState, id: u64, status: InvoiceStatus, other: u64)
    requires
        s.invoices.contains_key(id),
        s.invoices[id].id == id,
    ensures
        saved(s, s.invoices[id].with_status(status)).invoices.contains_key(id),
        same_terms(saved(s, s.invoices[id].with_status(status)).invoices[id], s.invoices[id]),
        saved(s, s.invoices[id].with_status(status)).invoices[id].status == status,
        other != id ==> saved(s, s.invoices[id].with_status(status)).invoices.contains_key(other)
            == s.invoices.contains_key(other),
        other != id && s.invoices.contains_key(other) ==> saved(
            s,
            s.invoices[id].with_status(status),
        ).invoices[other] == s.invoices[other],
        saved(s, s.invoices[id].with_status(status)).count == s.count,
{
}

} // verus!
