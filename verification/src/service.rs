//! The inventory service: the catalog and the ledger in memory, the checks
//! made on every request, and the saves that follow every change.

use crate::catalog::{
    catalog_of, distinct_skus, enumerates, lemma_catalog_entry, lemma_catalog_holds_records,
    lemma_catalog_of_records, lemma_catalog_push, lemma_catalog_remove, lemma_catalog_size,
    lemma_catalog_update, lists, low_stock_part,
};
use crate::clock::now;
use crate::errors::{ServiceError, ServiceErrorView, StorageError};
use crate::ident::fresh_id;
use crate::inventory::{Inventory, Operation};
use crate::ledger::{
    chronological, concerns, falls_within, is_chronological, lemma_chronological_filter,
    lemma_chronological_ordered,
    lemma_insert_by_time_position, lemma_spared_has_none, spares,
};
use crate::models::{
    text_view, Product, ProductView, Timestamp, Transaction, TransactionType, TransactionView,
};
use crate::storage::{
    load_products_from, load_transactions_from, loads_products, loads_transactions,
    save_products_to, save_transactions_to, saves_products, saves_transactions, Storage,
};
use crate::text::is_blank;
use vstd::prelude::*;
use vstd::string::*;

verus! {

/// The number of an optional amount.
pub open spec fn amount_view(n: Option<u32>) -> Option<int> {
    match n {
        Some(n) => Some(n as int),
        None => None,
    }
}

/// The product that a request to file one describes.
pub open spec fn product_of(
    id: Seq<char>,
    sku: Seq<char>,
    name: Seq<char>,
    description: Seq<char>,
    quantity: u32,
    reorder_point: u32,
) -> ProductView {
    ProductView {
        id,
        sku,
        name,
        description,
        quantity: quantity as int,
        reorder_point: reorder_point as int,
    }
}

/// The movement that a request to move stock describes.
pub open spec fn movement_of(
    kind: TransactionType,
    sku: Seq<char>,
    quantity: u32,
    notes: Option<Seq<char>>,
    id: Seq<char>,
    at: Timestamp,
) -> TransactionView {
    TransactionView {
        id,
        product_sku: sku,
        transaction_type: kind,
        quantity: quantity as int,
        timestamp: at,
        notes,
    }
}

/// A request to file a product under `sku` with the name `name`, with the
/// fields that play no part in whether it is accepted left empty.
pub open spec fn product_draft(sku: Seq<char>, name: Seq<char>) -> Operation {
    Operation::AddProduct { product: product_of(Seq::empty(), sku, name, Seq::empty(), 0, 0) }
}

/// A request to move stock of the product filed under `sku`, with the
/// fields that play no part in whether it is accepted left empty.
pub open spec fn movement_draft(kind: TransactionType, sku: Seq<char>, quantity: u32) -> Operation {
    Operation::RecordMovement {
        movement: movement_of(
            kind,
            sku,
            quantity,
            None,
            Seq::empty(),
            Timestamp { secs: 0, nanos: 0 },
        ),
    }
}

/// How the service answers a request: with the reason where it turns the
/// request down; with success or a storage error where it accepts it.
pub open spec fn answers<T>(r: Result<T, ServiceError>, refusal: Option<ServiceErrorView>) -> bool {
    match refusal {
        Some(reason) => r matches Err(e) && e@ == reason,
        None => r matches Err(e) ==> e is StorageError,
    }
}

/// The outcome of a save as the service reports it: a failure of storage
/// as the service's storage error.
pub open spec fn reported(outcome: Result<(), StorageError>) -> Result<(), ServiceError> {
    match outcome {
        Ok(()) => Ok(()),
        Err(e) => Err(ServiceError::StorageError(e)),
    }
}

/// Whether a request went well, without what it returned.
pub open spec fn status<T>(r: Result<T, ServiceError>) -> Result<(), ServiceError> {
    match r {
        Ok(_) => Ok(()),
        Err(e) => Err(e),
    }
}

/// Wraps the outcome of a save: a failure of storage becomes the service's
/// storage error.
pub fn saved(outcome: Result<(), StorageError>) -> (r: Result<(), ServiceError>)
    ensures
        r == reported(outcome),
{
    match outcome {
        Ok(()) => Ok(()),
        Err(e) => Err(ServiceError::StorageError(e)),
    }
}

/// `state` is what the records that `storage` gives make up: the products
/// filed one after the other, the movements as they come.
pub open spec fn restored_from<S: Storage + ?Sized>(storage: &S, state: Inventory) -> bool {
    exists|products: Vec<Product>, transactions: Vec<Transaction>|
        #![trigger loads_products(storage, Ok(products)), loads_transactions(storage, Ok(transactions))]
        {
            &&& loads_products(storage, Ok(products))
            &&& loads_transactions(storage, Ok(transactions))
            &&& state.catalog == catalog_of(products.deep_view())
            &&& state.ledger == transactions.deep_view()
        }
}

/// `cause` is the failure of the first load from `storage` that fails: that
/// of the products, or that of the movements once the products are loaded.
pub open spec fn load_fails<S: Storage + ?Sized>(storage: &S, cause: StorageError) -> bool {
    ||| loads_products(storage, Err(cause))
    ||| (exists|products: Vec<Product>| #[trigger] loads_products(storage, Ok(products)))
        && loads_transactions(storage, Err(cause))
}

/// Finds the record with the SKU `sku`.
fn find_sku(products: &Vec<Product>, sku: &str) -> (r: Option<usize>)
    ensures
        match r {
            Some(i) => i < products.len() && products[i as int].sku@ == sku@,
            None => !lists(products.deep_view(), sku@),
        },
{
    let key = sku.to_owned();
    let mut i: usize = 0;
    while i < products.len()
        invariant
            i <= products.len(),
            key@ == sku@,
            forall|j: int| 0 <= j < i ==> products[j].sku@ != sku@,
        decreases products.len() - i,
    {
        if products[i].sku == key {
            return Some(i);
        }
        i += 1;
    }
    assert(!lists(products.deep_view(), sku@)) by {
        if lists(products.deep_view(), sku@) {
            let k = choose|k: int|
                0 <= k < products.deep_view().len() && #[trigger] products.deep_view()[k].sku
                    == sku@;
            assert(products[k].sku@ == sku@);
        }
    }
    None
}

/// Puts movements in order of time, keeping movements of the same instant
/// in the order in which they come.
fn in_order_of_time<'a>(entries: Vec<&'a Transaction>) -> (r: Vec<&'a Transaction>)
    ensures
        r.deep_view() == chronological(entries.deep_view()),
{
    let mut out: Vec<&'a Transaction> = Vec::new();
    let mut i: usize = 0;
    assert(entries.deep_view().subrange(0, 0) =~= Seq::<TransactionView>::empty());
    assert(out.deep_view() =~= Seq::<TransactionView>::empty());
    while i < entries.len()
        invariant
            i <= entries.len(),
            out.len() == i,
            out.deep_view() == chronological(entries.deep_view().subrange(0, i as int)),
        decreases entries.len() - i,
    {
        let t = entries[i];
        let mut p: usize = out.len();
        while p > 0 && !out[p - 1].timestamp.is_at_or_before(&t.timestamp)
            invariant
                p <= out.len(),
                forall|j: int|
                    p <= j < out.len() ==> !(#[trigger] out.deep_view()[j]).timestamp.le(
                        t.timestamp,
                    ),
            decreases p,
        {
            p -= 1;
        }
        proof {
            let before = out.deep_view();
            let prefix = entries.deep_view().subrange(0, i as int + 1);
            assert(prefix.drop_last() =~= entries.deep_view().subrange(0, i as int));
            assert(prefix.last() == t@);
            if p > 0 {
                assert(before[p - 1].timestamp.le(t.timestamp));
            }
            lemma_insert_by_time_position(before, t@, p as int);
        }
        let ghost before = out.deep_view();
        out.insert(p, t);
        assert(out.deep_view() =~= before.insert(p as int, t@));
        i += 1;
    }
    assert(entries.deep_view().subrange(0, i as int) =~= entries.deep_view());
    out
}

/// The inventory service. It owns the catalog and the ledger, checks every
/// request before it changes anything, and saves to its storage after every
/// change.
pub struct InventoryService {
    /// The products; no two of them share a SKU.
    products: Vec<Product>,
    /// The stock movements, in the order in which they were recorded.
    transactions: Vec<Transaction>,
    storage: Box<dyn Storage>,
}

impl View for InventoryService {
    type V = Inventory;

    closed spec fn view(&self) -> Inventory {
        Inventory {
            catalog: catalog_of(self.products.deep_view()),
            ledger: self.transactions.deep_view(),
        }
    }
}

impl InventoryService {
    /// The service is consistent: it holds at most one product per SKU.
    pub closed spec fn wf(&self) -> bool {
        distinct_skus(self.products.deep_view())
    }

    /// The product records that a save hands to storage.
    pub closed spec fn saved_products(&self) -> Seq<ProductView> {
        self.products.deep_view()
    }

    /// The movement records that a save hands to storage.
    pub closed spec fn saved_transactions(&self) -> Seq<TransactionView> {
        self.transactions.deep_view()
    }

    /// The product records that the service holds.
    pub closed spec fn held_products(&self) -> Seq<Product> {
        self.products@
    }

    /// The movement records that the service holds.
    pub closed spec fn held_transactions(&self) -> Seq<Transaction> {
        self.transactions@
    }

    /// `r` is what a save of the catalog gives: the answer of the storage
    /// to all the product records of the service, as the service reports it.
    pub closed spec fn catalog_saved(&self, r: Result<(), ServiceError>) -> bool {
        exists|records: &[Product], outcome: Result<(), StorageError>|
            {
                &&& records@ == self.held_products()
                &&& #[trigger] saves_products::<dyn Storage>(&*self.storage, records, outcome)
                &&& r == reported(outcome)
            }
    }

    /// `r` is what a save of the ledger gives: the answer of the storage to
    /// all the movement records of the service, as the service reports it.
    pub closed spec fn ledger_saved(&self, r: Result<(), ServiceError>) -> bool {
        exists|records: &[Transaction], outcome: Result<(), StorageError>|
            {
                &&& records@ == self.held_transactions()
                &&& #[trigger] saves_transactions::<dyn Storage>(&*self.storage, records, outcome)
                &&& r == reported(outcome)
            }
    }

    /// `r` is what a save of the catalog and then of the ledger gives: the
    /// failure of the catalog's save where that fails, and what the save of
    /// the ledger gives where the catalog is saved.
    pub closed spec fn all_saved(&self, r: Result<(), ServiceError>) -> bool {
        ||| r is Err && self.catalog_saved(r)
        ||| self.catalog_saved(Ok(())) && self.ledger_saved(r)
    }

    /// The state of a consistent service is a well-formed inventory: each
    /// product is filed under its own SKU and no stock level is negative.
    pub proof fn lemma_state_wf(&self)
        requires
            self.wf(),
        ensures
            self@.wf(),
    {
        let records = self.products.deep_view();
        lemma_catalog_of_records(records);
        assert forall|sku: Seq<char>| #[trigger] self@.catalog.contains_key(sku) implies {
            &&& self@.catalog[sku].sku == sku
            &&& self@.catalog[sku].quantity >= 0
            &&& self@.catalog[sku].reorder_point >= 0
        } by {
            let i = choose|i: int| 0 <= i < records.len() && #[trigger] records[i].sku == sku;
            lemma_catalog_entry(records, i);
            assert(records[i] == self.products[i]@);
        }
    }

    /// What a save hands to storage is the whole state: the records that
    /// the service holds, which make up the catalog, no SKU twice, and the
    /// movements, which are the ledger.
    pub proof fn lemma_saved_records(&self)
        requires
            self.wf(),
        ensures
            self.saved_products() == self.held_products().map_values(|p: Product| p@),
            self.saved_transactions() == self.held_transactions().map_values(
                |t: Transaction| t@,
            ),
            distinct_skus(self.saved_products()),
            catalog_of(self.saved_products()) == self@.catalog,
            self.saved_transactions() == self@.ledger,
    {
        assert(self.saved_products() =~= self.held_products().map_values(|p: Product| p@));
        assert(self.saved_transactions() =~= self.held_transactions().map_values(
            |t: Transaction| t@,
        ));
    }

    /// Round-trip persistence: a service restored from what a consistent
    /// service saves is in the state of that service.
    pub proof fn lemma_restore_round_trip(&self, restored: &InventoryService)
        requires
            self.wf(),
            restored@.catalog == catalog_of(self.saved_products()),
            restored@.ledger == self.saved_transactions(),
        ensures
            restored@ == self@,
    {
    }

    /// Sets a service up from the records that storage holds. Of two
    /// products with one SKU the later one stays.
    pub fn restore(
        products: Vec<Product>,
        transactions: Vec<Transaction>,
        storage: Box<dyn Storage>,
    ) -> (s: Self)
        ensures
            s.wf(),
            s@.wf(),
            s@.catalog == catalog_of(products.deep_view()),
            s@.ledger == transactions.deep_view(),
    {
        let mut filed: Vec<Product> = Vec::new();
        let mut i: usize = 0;
        assert(products.deep_view().subrange(0, 0) =~= Seq::<ProductView>::empty());
        assert(filed.deep_view() =~= Seq::<ProductView>::empty());
        while i < products.len()
            invariant
                i <= products.len(),
                distinct_skus(filed.deep_view()),
                catalog_of(filed.deep_view()) == catalog_of(
                    products.deep_view().subrange(0, i as int),
                ),
            decreases products.len() - i,
        {
            let p = products[i].clone();
            let ghost before = filed.deep_view();
            proof {
                let prefix = products.deep_view().subrange(0, i as int + 1);
                assert(prefix.drop_last() =~= products.deep_view().subrange(0, i as int));
                assert(prefix.last() == p@);
            }
            match find_sku(&filed, p.sku.as_str()) {
                Some(k) => {
                    proof {
                        lemma_catalog_update(before, k as int, p@);
                    }
                    filed[k] = p;
                    assert(filed.deep_view() =~= before.update(k as int, p@));
                },
                None => {
                    proof {
                        lemma_catalog_push(before, p@);
                    }
                    filed.push(p);
                    assert(filed.deep_view() =~= before.push(p@));
                },
            }
            i += 1;
        }
        assert(products.deep_view().subrange(0, i as int) =~= products.deep_view());
        let s = InventoryService { products: filed, transactions, storage };
        proof {
            s.lemma_state_wf();
        }
        s
    }

    /// Sets a service up from what its storage holds: loads the products,
    /// then the movements, and restores the state from them. Fails with the
    /// storage error of the first load that fails.
    pub fn new(storage: Box<dyn Storage>) -> (r: Result<Self, ServiceError>)
        ensures
            match r {
                Ok(s) => s.wf() && s@.wf() && restored_from::<dyn Storage>(&*storage, s@),
                Err(e) => e matches ServiceError::StorageError(cause) && load_fails::<dyn Storage>(
                    &*storage,
                    cause,
                ),
            },
    {
        let products = match load_products_from::<dyn Storage>(&*storage) {
            Ok(products) => products,
            Err(e) => {
                return Err(ServiceError::StorageError(e));
            },
        };
        let transactions = match load_transactions_from::<dyn Storage>(&*storage) {
            Ok(transactions) => transactions,
            Err(e) => {
                return Err(ServiceError::StorageError(e));
            },
        };
        Ok(InventoryService::restore(products, transactions, storage))
    }

    /// The product records, as a save hands them to storage.
    pub fn product_records(&self) -> (records: &[Product])
        ensures
            records@ == self.held_products(),
            records.deep_view() == self.saved_products(),
    {
        let records = self.products.as_slice();
        assert(records.deep_view() =~= self.products.deep_view());
        records
    }

    /// The movement records, as a save hands them to storage.
    pub fn transaction_records(&self) -> (records: &[Transaction])
        ensures
            records@ == self.held_transactions(),
            records.deep_view() == self.saved_transactions(),
    {
        let records = self.transactions.as_slice();
        assert(records.deep_view() =~= self.transactions.deep_view());
        records
    }

    /// Saves the whole catalog.
    fn persist_products(&self) -> (r: Result<(), ServiceError>)
        ensures
            self.catalog_saved(r),
            r matches Err(e) ==> e is StorageError,
    {
        let records = self.product_records();
        let outcome = save_products_to::<dyn Storage>(&*self.storage, records);
        assert(saves_products::<dyn Storage>(&*self.storage, records, outcome));
        saved(outcome)
    }

    /// Saves the whole ledger.
    fn persist_transactions(&self) -> (r: Result<(), ServiceError>)
        ensures
            self.ledger_saved(r),
            r matches Err(e) ==> e is StorageError,
    {
        let records = self.transaction_records();
        let outcome = save_transactions_to::<dyn Storage>(&*self.storage, records);
        assert(saves_transactions::<dyn Storage>(&*self.storage, records, outcome));
        saved(outcome)
    }

    /// Saves the catalog and then the ledger; the ledger is not saved where
    /// the save of the catalog fails.
    fn persist_all(&self) -> (r: Result<(), ServiceError>)
        ensures
            self.all_saved(r),
            r matches Err(e) ==> e is StorageError,
    {
        match self.persist_products() {
            Ok(()) => self.persist_transactions(),
            Err(e) => Err(e),
        }
    }

    /// Finds the product filed under `sku`.
    fn position(&self, sku: &str) -> (r: Option<usize>)
        requires
            self.wf(),
        ensures
            match r {
                Some(i) => {
                    &&& i < self.products.len()
                    &&& self.products[i as int].sku@ == sku@
                    &&& self@.has(sku@)
                    &&& self@.catalog[sku@] == self.products[i as int]@
                },
                None => !self@.has(sku@) && !lists(self.products.deep_view(), sku@),
            },
    {
        let r = find_sku(&self.products, sku);
        proof {
            lemma_catalog_of_records(self.products.deep_view());
            if let Some(i) = r {
                lemma_catalog_entry(self.products.deep_view(), i as int);
            }
        }
        r
    }

    /// Checks a request to file a product under `sku` with the name `name`;
    /// changes nothing.
    fn check_new_product(&self, sku: &str, name: &str) -> (r: Result<(), ServiceError>)
        requires
            self.wf(),
        ensures
            match r {
                Ok(()) => self@.refusal(product_draft(sku@, name@)) is None && !lists(
                    self.products.deep_view(),
                    sku@,
                ),
                Err(e) => self@.refusal(product_draft(sku@, name@)) == Some(e@),
            },
    {
        if is_blank(sku) {
            return Err(ServiceError::InvalidInput(String::from_str("SKU cannot be empty")));
        }
        if is_blank(name) {
            return Err(ServiceError::InvalidInput(String::from_str("Name cannot be empty")));
        }
        if self.position(sku).is_some() {
            return Err(ServiceError::DuplicateSKU(sku.to_owned()));
        }
        Ok(())
    }

    /// Checks a request to move `quantity` units of the product filed under
    /// `sku` and finds that product; changes nothing.
    fn check_movement(&self, kind: TransactionType, sku: &str, quantity: u32) -> (r: Result<
        usize,
        ServiceError,
    >)
        requires
            self.wf(),
        ensures
            match r {
                Ok(i) => {
                    &&& self@.refusal(movement_draft(kind, sku@, quantity)) is None
                    &&& i < self.products.len()
                    &&& self.products[i as int].sku@ == sku@
                    &&& self@.catalog[sku@] == self.products[i as int]@
                },
                Err(e) => self@.refusal(movement_draft(kind, sku@, quantity)) == Some(e@),
            },
    {
        if quantity == 0 {
            return Err(ServiceError::InvalidInput(String::from_str("Quantity must be positive")));
        }
        let i = match self.position(sku) {
            Some(i) => i,
            None => {
                return Err(ServiceError::ProductNotFound(sku.to_owned()));
            },
        };
        let available = self.products[i].quantity;
        match kind {
            TransactionType::Addition => Ok(i),
            TransactionType::Removal => {
                if quantity > available {
                    Err(
                        ServiceError::InsufficientStock {
                            sku: sku.to_owned(),
                            requested: quantity,
                            available,
                        },
                    )
                } else {
                    Ok(i)
                }
            },
        }
    }

    /// Files a new product under the identifier `id`.
    ///
    /// Turned down with `InvalidInput` where the SKU or the name is blank,
    /// and with `DuplicateSKU` where a product is filed under the SKU
    /// already; the catalog is then unchanged and nothing is saved.
    /// Otherwise the product is filed, the catalog is saved and the product
    /// is returned; where the save fails, its error is returned and the
    /// product stays filed.
    pub fn add_product_with_id(
        &mut self,
        id: String,
        sku: String,
        name: String,
        description: String,
        initial_quantity: u32,
        reorder_point: u32,
    ) -> (r: Result<Product, ServiceError>)
        requires
            old(self).wf(),
        ensures
            final(self).wf(),
            final(self)@.wf(),
            ({
                let product = product_of(
                    id@,
                    sku@,
                    name@,
                    description@,
                    initial_quantity,
                    reorder_point,
                );
                let op = Operation::AddProduct { product };
                &&& final(self)@ == old(self)@.step(op)
                &&& answers(r, old(self)@.refusal(op))
                &&& r matches Ok(p) ==> p@ == product
                &&& old(self)@.refusal(op) is None ==> final(self).catalog_saved(status(r))
            }),
    {
        proof {
            self.lemma_state_wf();
        }
        match self.check_new_product(sku.as_str(), name.as_str()) {
            Ok(()) => {},
            Err(e) => {
                return Err(e);
            },
        }
        let product = Product {
            id,
            sku,
            name,
            description,
            quantity: initial_quantity,
            reorder_point,
        };
        let copy = product.clone();
        let ghost before = self.products.deep_view();
        proof {
            lemma_catalog_push(before, product@);
        }
        self.products.push(product);
        assert(self.products.deep_view() =~= before.push(copy@));
        proof {
            self.lemma_state_wf();
        }
        match self.persist_products() {
            Ok(()) => Ok(copy),
            Err(e) => Err(e),
        }
    }

    /// Files a new product under a fresh identifier, which is drawn only
    /// once the request is found acceptable; in all else as
    /// `add_product_with_id`.
    pub fn add_product(
        &mut self,
        sku: String,
        name: String,
        description: String,
        initial_quantity: u32,
        reorder_point: u32,
    ) -> (r: Result<Product, ServiceError>)
        requires
            old(self).wf(),
        ensures
            final(self).wf(),
            final(self)@.wf(),
            exists|id: Seq<char>|
                {
                    let product = #[trigger] product_of(
                        id,
                        sku@,
                        name@,
                        description@,
                        initial_quantity,
                        reorder_point,
                    );
                    let op = Operation::AddProduct { product };
                    &&& final(self)@ == old(self)@.step(op)
                    &&& answers(r, old(self)@.refusal(op))
                    &&& r matches Ok(p) ==> p@ == product
                    &&& old(self)@.refusal(op) is None ==> final(self).catalog_saved(status(r))
                },
    {
        proof {
            self.lemma_state_wf();
        }
        match self.check_new_product(sku.as_str(), name.as_str()) {
            Ok(()) => {},
            Err(e) => {
                proof {
                    // Whether the request is refused does not hang on the identifier.
                    let unfiled = product_of(
                        Seq::empty(),
                        sku@,
                        name@,
                        description@,
                        initial_quantity,
                        reorder_point,
                    );
                    assert(self@.refusal(Operation::AddProduct { product: unfiled })
                        == self@.refusal(product_draft(sku@, name@)));
                }
                return Err(e);
            },
        }
        let id = fresh_id();
        self.add_product_with_id(id, sku, name, description, initial_quantity, reorder_point)
    }

    /// Changes the name, the description or the reorder point of the
    /// product filed under `sku`; a field that is `None` stays as it is, and
    /// the stock on hand is never touched.
    ///
    /// Turned down with `ProductNotFound` where no product is filed under
    /// the SKU, and with `InvalidInput` where a name is given and blank;
    /// nothing is then changed or saved. Otherwise the product is changed,
    /// the catalog is saved and the changed product is returned; where the
    /// save fails, its error is returned and the change stays.
    pub fn update_product(
        &mut self,
        sku: &str,
        name: Option<String>,
        description: Option<String>,
        reorder_point: Option<u32>,
    ) -> (r: Result<Product, ServiceError>)
        requires
            old(self).wf(),
        ensures
            final(self).wf(),
            final(self)@.wf(),
            ({
                let op = Operation::UpdateProduct {
                    sku: sku@,
                    name: text_view(name),
                    description: text_view(description),
                    reorder_point: amount_view(reorder_point),
                };
                &&& final(self)@ == old(self)@.step(op)
                &&& answers(r, old(self)@.refusal(op))
                &&& r matches Ok(p) ==> p@ == old(self)@.revised(
                    sku@,
                    text_view(name),
                    text_view(description),
                    amount_view(reorder_point),
                )
                &&& old(self)@.refusal(op) is None ==> final(self).catalog_saved(status(r))
            }),
    {
        proof {
            self.lemma_state_wf();
        }
        let i = match self.position(sku) {
            Some(i) => i,
            None => {
                return Err(ServiceError::ProductNotFound(sku.to_owned()));
            },
        };
        let ghost before = self.products.deep_view();
        let ghost revised = self@.revised(
            sku@,
            text_view(name),
            text_view(description),
            amount_view(reorder_point),
        );
        let mut product = self.products[i].clone();
        if let Some(new_name) = name {
            if is_blank(new_name.as_str()) {
                return Err(ServiceError::InvalidInput(String::from_str("Name cannot be empty")));
            }
            product.name = new_name;
        }
        if let Some(new_description) = description {
            product.description = new_description;
        }
        if let Some(new_reorder_point) = reorder_point {
            product.reorder_point = new_reorder_point;
        }
        let copy = product.clone();
        assert(product@ == revised);
        proof {
            lemma_catalog_update(before, i as int, product@);
        }
        self.products[i] = product;
        assert(self.products.deep_view() =~= before.update(i as int, copy@));
        proof {
            self.lemma_state_wf();
        }
        match self.persist_products() {
            Ok(()) => Ok(copy),
            Err(e) => Err(e),
        }
    }

    /// Looks up the product filed under `sku`. Changes and saves nothing.
    pub fn get_product(&self, sku: &str) -> (r: Result<&Product, ServiceError>)
        requires
            self.wf(),
        ensures
            match r {
                Ok(p) => self@.has(sku@) && p@ == self@.catalog[sku@],
                Err(e) => !self@.has(sku@) && e@ == ServiceErrorView::ProductNotFound(sku@),
            },
    {
        match self.position(sku) {
            Some(i) => Ok(&self.products[i]),
            None => Err(ServiceError::ProductNotFound(sku.to_owned())),
        }
    }

    /// Lists every product of the catalog once. The order is the order in
    /// which the service holds them and means nothing.
    pub fn list_products(&self) -> (r: Vec<&Product>)
        requires
            self.wf(),
        ensures
            enumerates(r.deep_view(), self@.catalog),
            r.len() == self@.catalog.dom().len(),
    {
        let mut out: Vec<&Product> = Vec::new();
        let mut i: usize = 0;
        while i < self.products.len()
            invariant
                i <= self.products.len(),
                out.len() == i,
                forall|j: int| 0 <= j < i ==> out[j]@ == self.products[j]@,
            decreases self.products.len() - i,
        {
            out.push(&self.products[i]);
            i += 1;
        }
        proof {
            assert(out.deep_view() =~= self.products.deep_view());
            lemma_catalog_holds_records(self.products.deep_view());
            lemma_catalog_size(self.products.deep_view());
        }
        out
    }

    /// Lists every product that is low on stock once: those whose stock on
    /// hand is at or below their reorder point. The order means nothing.
    pub fn list_low_stock(&self) -> (r: Vec<&Product>)
        requires
            self.wf(),
        ensures
            enumerates(r.deep_view(), low_stock_part(self@.catalog)),
    {
        let mut out: Vec<&Product> = Vec::new();
        let mut i: usize = 0;
        let ghost records = self.products.deep_view();
        let ghost mut source: Seq<int> = Seq::empty();
        while i < self.products.len()
            invariant
                i <= self.products.len(),
                records == self.products.deep_view(),
                source.len() == out.len(),
                forall|j: int|
                    0 <= j < source.len() ==> 0 <= #[trigger] source[j] < i && out[j]@
                        == records[source[j]] && records[source[j]].is_low(),
                forall|a: int, b: int|
                    0 <= a < b < source.len() ==> #[trigger] source[a] < #[trigger] source[b],
                forall|k: int|
                    0 <= k < i && (#[trigger] records[k]).is_low() ==> exists|j: int|
                        0 <= j < source.len() && #[trigger] source[j] == k,
            decreases self.products.len() - i,
        {
            if self.products[i].is_low_stock() {
                let ghost earlier = source;
                out.push(&self.products[i]);
                proof {
                    source = source.push(i as int);
                    assert forall|k: int|
                        0 <= k < i + 1 && (#[trigger] records[k]).is_low() implies exists|j: int|
                        0 <= j < source.len() && #[trigger] source[j] == k by {
                        if k < i {
                            let j = choose|j: int|
                                0 <= j < earlier.len() && #[trigger] earlier[j] == k;
                            assert(source[j] == k);
                        } else {
                            assert(source[source.len() - 1] == k);
                        }
                    }
                }
            }
            i += 1;
        }
        proof {
            let listing = out.deep_view();
            let low = low_stock_part(self@.catalog);
            lemma_catalog_holds_records(records);
            assert forall|a: int, b: int| 0 <= a < b < listing.len() implies listing[a].sku
                != listing[b].sku by {
                assert(source[a] < source[b]);
                assert(records[source[a]].sku != records[source[b]].sku);
            }
            assert forall|j: int| 0 <= j < listing.len() implies low.contains_key(
                #[trigger] listing[j].sku,
            ) && low[listing[j].sku] == listing[j] by {
                assert(listing[j] == records[source[j]]);
                assert(self@.catalog.contains_key(records[source[j]].sku));
            }
            assert forall|sku: Seq<char>| #[trigger] low.contains_key(sku) implies lists(
                listing,
                sku,
            ) by {
                let k = choose|k: int| 0 <= k < records.len() && #[trigger] records[k].sku == sku;
                assert(self@.catalog[records[k].sku] == records[k]);
                assert(records[k].is_low());
                let j = choose|j: int| 0 <= j < source.len() && #[trigger] source[j] == k;
                assert(listing[j].sku == sku);
            }
        }
        out
    }

    /// Takes the product filed under `sku` out of the catalog, whatever its
    /// stock, and its movements out of the ledger.
    ///
    /// Turned down with `ProductNotFound` where no product is filed under
    /// the SKU; nothing is then changed or saved. Otherwise the catalog and
    /// then the ledger are saved; where a save fails, its error is returned
    /// and the product stays deleted.
    pub fn delete_product(&mut self, sku: &str) -> (r: Result<(), ServiceError>)
        requires
            old(self).wf(),
        ensures
            final(self).wf(),
            final(self)@.wf(),
            final(self)@ == old(self)@.step(Operation::DeleteProduct { sku: sku@ }),
            answers(r, old(self)@.refusal(Operation::DeleteProduct { sku: sku@ })),
            old(self)@.has(sku@) ==> final(self).all_saved(r),
            old(self)@.has(sku@) ==> !final(self)@.has(sku@) && final(self)@.history(sku@).len()
                == 0,
    {
        proof {
            self.lemma_state_wf();
        }
        let i = match self.position(sku) {
            Some(i) => i,
            None => {
                return Err(ServiceError::ProductNotFound(sku.to_owned()));
            },
        };
        let ghost before = self.products.deep_view();
        let ghost ledger = self.transactions.deep_view();
        proof {
            lemma_catalog_remove(before, i as int);
        }
        self.products.remove(i);
        assert(self.products.deep_view() =~= before.remove(i as int));

        let key = sku.to_owned();
        let mut kept: Vec<Transaction> = Vec::new();
        let mut k: usize = 0;
        assert(ledger.subrange(0, 0).filter(spares(sku@)) =~= Seq::<TransactionView>::empty()) by {
            ledger.subrange(0, 0).lemma_filter_len(spares(sku@));
        }
        assert(kept.deep_view() =~= Seq::<TransactionView>::empty());
        while k < self.transactions.len()
            invariant
                k <= self.transactions.len(),
                key@ == sku@,
                ledger == self.transactions.deep_view(),
                kept.deep_view() == ledger.subrange(0, k as int).filter(spares(sku@)),
            decreases self.transactions.len() - k,
        {
            let ghost so_far = kept.deep_view();
            proof {
                let prefix = ledger.subrange(0, k as int + 1);
                assert(prefix =~= ledger.subrange(0, k as int).push(ledger[k as int]));
                ledger.subrange(0, k as int).lemma_filter_push(ledger[k as int], spares(sku@));
            }
            if self.transactions[k].product_sku != key {
                let t = self.transactions[k].clone();
                kept.push(t);
                assert(kept.deep_view() =~= so_far.push(ledger[k as int]));
            }
            k += 1;
        }
        assert(ledger.subrange(0, k as int) =~= ledger);
        self.transactions = kept;
        proof {
            self.lemma_state_wf();
            lemma_spared_has_none(ledger, sku@);
        }
        self.persist_all()
    }

    /// Records a movement of stock of the product filed under `sku`.
    fn record_movement(
        &mut self,
        kind: TransactionType,
        sku: &str,
        quantity: u32,
        notes: Option<String>,
        id: String,
        at: Timestamp,
    ) -> (r: Result<(), ServiceError>)
        requires
            old(self).wf(),
            kind == TransactionType::Addition ==> old(self)@.stock(sku@) + quantity <= u32::MAX,
        ensures
            final(self).wf(),
            final(self)@.wf(),
            ({
                let op = Operation::RecordMovement {
                    movement: movement_of(kind, sku@, quantity, text_view(notes), id@, at),
                };
                &&& final(self)@ == old(self)@.step(op)
                &&& answers(r, old(self)@.refusal(op))
                &&& old(self)@.refusal(op) is None ==> final(self).all_saved(r)
            }),
    {
        proof {
            self.lemma_state_wf();
        }
        let i = match self.check_movement(kind, sku, quantity) {
            Ok(i) => i,
            Err(e) => {
                return Err(e);
            },
        };
        let available = self.products[i].quantity;
        let ghost before = self.products.deep_view();
        let ghost ledger = self.transactions.deep_view();
        let ghost old_product = self.products[i as int]@;
        let new_quantity = match kind {
            TransactionType::Addition => available + quantity,
            TransactionType::Removal => available - quantity,
        };
        self.products[i].quantity = new_quantity;
        let transaction = Transaction {
            id,
            product_sku: sku.to_owned(),
            transaction_type: kind,
            quantity,
            timestamp: at,
            notes,
        };
        let ghost movement = transaction@;
        proof {
            let changed = ProductView {
                quantity: old_product.quantity + movement.signed_quantity(),
                ..old_product
            };
            assert(self.products.deep_view() =~= before.update(i as int, changed));
            lemma_catalog_update(before, i as int, changed);
        }
        self.transactions.push(transaction);
        assert(self.transactions.deep_view() =~= ledger.push(movement));
        proof {
            self.lemma_state_wf();
        }
        self.persist_all()
    }

    /// Adds stock to the product filed under `sku` and records the movement
    /// under the identifier `id` at the instant `at`.
    ///
    /// Turned down with `InvalidInput` where the quantity is zero, and with
    /// `ProductNotFound` where no product is filed under the SKU; nothing is
    /// then changed or saved. Otherwise the stock grows by the quantity, an
    /// addition is appended to the ledger, and the catalog and then the
    /// ledger are saved; where a save fails, its error is returned and the
    /// change stays. The new stock level must fit in 32 bits.
    pub fn add_stock_at(
        &mut self,
        sku: &str,
        quantity: u32,
        notes: Option<String>,
        id: String,
        at: Timestamp,
    ) -> (r: Result<(), ServiceError>)
        requires
            old(self).wf(),
            old(self)@.stock(sku@) + quantity <= u32::MAX,
        ensures
            final(self).wf(),
            final(self)@.wf(),
            ({
                let op = Operation::RecordMovement {
                    movement: movement_of(
                        TransactionType::Addition,
                        sku@,
                        quantity,
                        text_view(notes),
                        id@,
                        at,
                    ),
                };
                &&& final(self)@ == old(self)@.step(op)
                &&& answers(r, old(self)@.refusal(op))
                &&& old(self)@.refusal(op) is None ==> final(self).all_saved(r)
            }),
    {
        self.record_movement(TransactionType::Addition, sku, quantity, notes, id, at)
    }

    /// Takes stock from the product filed under `sku` and records the
    /// movement under the identifier `id` at the instant `at`.
    ///
    /// Turned down with `InvalidInput` where the quantity is zero, with
    /// `ProductNotFound` where no product is filed under the SKU, and with
    /// `InsufficientStock` where the quantity is more than the stock on
    /// hand; nothing is then changed or saved. Otherwise the stock shrinks
    /// by the quantity, a removal is appended to the ledger, and the catalog
    /// and then the ledger are saved; where a save fails, its error is
    /// returned and the change stays.
    pub fn remove_stock_at(
        &mut self,
        sku: &str,
        quantity: u32,
        notes: Option<String>,
        id: String,
        at: Timestamp,
    ) -> (r: Result<(), ServiceError>)
        requires
            old(self).wf(),
        ensures
            final(self).wf(),
            final(self)@.wf(),
            ({
                let op = Operation::RecordMovement {
                    movement: movement_of(
                        TransactionType::Removal,
                        sku@,
                        quantity,
                        text_view(notes),
                        id@,
                        at,
                    ),
                };
                &&& final(self)@ == old(self)@.step(op)
                &&& answers(r, old(self)@.refusal(op))
                &&& old(self)@.refusal(op) is None ==> final(self).all_saved(r)
            }),
    {
        self.record_movement(TransactionType::Removal, sku, quantity, notes, id, at)
    }

    /// Adds stock under a fresh identifier at the instant that the clock
    /// shows, both taken only once the request is found acceptable; in all
    /// else as `add_stock_at`.
    pub fn add_stock(&mut self, sku: &str, quantity: u32, notes: Option<String>) -> (r: Result<
        (),
        ServiceError,
    >)
        requires
            old(self).wf(),
            old(self)@.stock(sku@) + quantity <= u32::MAX,
        ensures
            final(self).wf(),
            final(self)@.wf(),
            exists|id: Seq<char>, at: Timestamp|
                {
                    let op = Operation::RecordMovement {
                        movement: #[trigger] movement_of(
                            TransactionType::Addition,
                            sku@,
                            quantity,
                            text_view(notes),
                            id,
                            at,
                        ),
                    };
                    &&& final(self)@ == old(self)@.step(op)
                    &&& answers(r, old(self)@.refusal(op))
                    &&& old(self)@.refusal(op) is None ==> final(self).all_saved(r)
                },
    {
        proof {
            self.lemma_state_wf();
        }
        match self.check_movement(TransactionType::Addition, sku, quantity) {
            Ok(_) => {},
            Err(e) => {
                proof {
                    // Whether the request is refused hangs neither on the
                    // identifier nor on the instant.
                    let unrecorded = movement_of(
                        TransactionType::Addition,
                        sku@,
                        quantity,
                        text_view(notes),
                        Seq::empty(),
                        Timestamp { secs: 0, nanos: 0 },
                    );
                    assert(self@.refusal(Operation::RecordMovement { movement: unrecorded })
                        == self@.refusal(movement_draft(TransactionType::Addition, sku@, quantity)));
                }
                return Err(e);
            },
        }
        let id = fresh_id();
        let at = now();
        self.add_stock_at(sku, quantity, notes, id, at)
    }

    /// Takes stock under a fresh identifier at the instant that the clock
    /// shows, both taken only once the request is found acceptable; in all
    /// else as `remove_stock_at`.
    pub fn remove_stock(&mut self, sku: &str, quantity: u32, notes: Option<String>) -> (r: Result<
        (),
        ServiceError,
    >)
        requires
            old(self).wf(),
        ensures
            final(self).wf(),
            final(self)@.wf(),
            exists|id: Seq<char>, at: Timestamp|
                {
                    let op = Operation::RecordMovement {
                        movement: #[trigger] movement_of(
                            TransactionType::Removal,
                            sku@,
                            quantity,
                            text_view(notes),
                            id,
                            at,
                        ),
                    };
                    &&& final(self)@ == old(self)@.step(op)
                    &&& answers(r, old(self)@.refusal(op))
                    &&& old(self)@.refusal(op) is None ==> final(self).all_saved(r)
                },
    {
        proof {
            self.lemma_state_wf();
        }
        match self.check_movement(TransactionType::Removal, sku, quantity) {
            Ok(_) => {},
            Err(e) => {
                proof {
                    // Whether the request is refused hangs neither on the
                    // identifier nor on the instant.
                    let unrecorded = movement_of(
                        TransactionType::Removal,
                        sku@,
                        quantity,
                        text_view(notes),
                        Seq::empty(),
                        Timestamp { secs: 0, nanos: 0 },
                    );
                    assert(self@.refusal(Operation::RecordMovement { movement: unrecorded })
                        == self@.refusal(movement_draft(TransactionType::Removal, sku@, quantity)));
                }
                return Err(e);
            },
        }
        let id = fresh_id();
        let at = now();
        self.remove_stock_at(sku, quantity, notes, id, at)
    }

    /// The movements of the product filed under `sku`, in order of time;
    /// movements of the same instant in the order in which they were
    /// recorded. Whether such a product exists is not looked at.
    pub fn get_transactions(&self, sku: &str) -> (r: Vec<&Transaction>)
        ensures
            r.deep_view() == self@.history(sku@),
            is_chronological(r.deep_view()),
    {
        let key = sku.to_owned();
        let ghost ledger = self.transactions.deep_view();
        let mut found: Vec<&Transaction> = Vec::new();
        let mut k: usize = 0;
        assert(ledger.subrange(0, 0).filter(concerns(sku@)) =~= Seq::<TransactionView>::empty())
            by {
            ledger.subrange(0, 0).lemma_filter_len(concerns(sku@));
        }
        assert(found.deep_view() =~= Seq::<TransactionView>::empty());
        while k < self.transactions.len()
            invariant
                k <= self.transactions.len(),
                key@ == sku@,
                ledger == self.transactions.deep_view(),
                found.deep_view() == ledger.subrange(0, k as int).filter(concerns(sku@)),
            decreases self.transactions.len() - k,
        {
            let ghost so_far = found.deep_view();
            proof {
                let prefix = ledger.subrange(0, k as int + 1);
                assert(prefix =~= ledger.subrange(0, k as int).push(ledger[k as int]));
                ledger.subrange(0, k as int).lemma_filter_push(ledger[k as int], concerns(sku@));
            }
            if self.transactions[k].product_sku == key {
                found.push(&self.transactions[k]);
                assert(found.deep_view() =~= so_far.push(ledger[k as int]));
            }
            k += 1;
        }
        assert(ledger.subrange(0, k as int) =~= ledger);
        proof {
            lemma_chronological_ordered(ledger.filter(concerns(sku@)));
        }
        in_order_of_time(found)
    }

    /// The movements of the product filed under `sku` that were recorded
    /// from `start` to `end`, both included, in order of time: the history
    /// of the product, cut down to that time.
    pub fn get_transactions_in_range(&self, sku: &str, start: Timestamp, end: Timestamp) -> (r:
        Vec<&Transaction>)
        ensures
            r.deep_view() == self@.history_between(sku@, start, end),
            r.deep_view() == self@.history(sku@).filter(falls_within(start, end)),
    {
        let key = sku.to_owned();
        let ghost ledger = self.transactions.deep_view();
        let ghost of_product = concerns(sku@);
        let ghost in_time = falls_within(start, end);
        let mut found: Vec<&Transaction> = Vec::new();
        let mut k: usize = 0;
        assert(ledger.subrange(0, 0).filter(of_product).filter(in_time) =~= Seq::<
            TransactionView,
        >::empty()) by {
            ledger.subrange(0, 0).lemma_filter_len(of_product);
            ledger.subrange(0, 0).filter(of_product).lemma_filter_len(in_time);
        }
        assert(found.deep_view() =~= Seq::<TransactionView>::empty());
        while k < self.transactions.len()
            invariant
                k <= self.transactions.len(),
                key@ == sku@,
                of_product == concerns(sku@),
                in_time == falls_within(start, end),
                ledger == self.transactions.deep_view(),
                found.deep_view() == ledger.subrange(0, k as int).filter(of_product).filter(
                    in_time,
                ),
            decreases self.transactions.len() - k,
        {
            let ghost so_far = found.deep_view();
            proof {
                let prefix = ledger.subrange(0, k as int + 1);
                assert(prefix =~= ledger.subrange(0, k as int).push(ledger[k as int]));
                ledger.subrange(0, k as int).lemma_filter_push(ledger[k as int], of_product);
                ledger.subrange(0, k as int).filter(of_product).lemma_filter_push(
                    ledger[k as int],
                    in_time,
                );
            }
            let t = &self.transactions[k];
            if t.product_sku == key && t.timestamp.is_within(&start, &end) {
                found.push(t);
                assert(found.deep_view() =~= so_far.push(ledger[k as int]));
            }
            k += 1;
        }
        assert(ledger.subrange(0, k as int) =~= ledger);
        proof {
            lemma_chronological_filter(ledger.filter(of_product), in_time);
        }
        in_order_of_time(found)
    }
}

} // verus!
