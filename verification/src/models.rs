//! Value types of the inventory: products, stock movements and instants.

use vstd::prelude::*;
use vstd::string::*;

verus! {

/// An instant in UTC, held as whole seconds since 1970-01-01T00:00:00 and the
/// nanoseconds past that second. Instants are ordered by seconds first and
/// nanoseconds second.
#[derive(Clone, Copy, Debug, PartialEq, Eq, Structural)]
pub struct Timestamp {
    pub secs: i64,
    pub nanos: u32,
}

impl Timestamp {
    /// `self` is not later than `other`.
    pub open spec fn le(self, other: Timestamp) -> bool {
        self.secs < other.secs || (self.secs == other.secs && self.nanos <= other.nanos)
    }

    /// `self` lies in the closed interval from `start` to `end`.
    pub open spec fn within(self, start: Timestamp, end: Timestamp) -> bool {
        start.le(self) && self.le(end)
    }

    pub fn new(secs: i64, nanos: u32) -> (t: Timestamp)
        ensures
            t.secs == secs,
            t.nanos == nanos,
    {
        Timestamp { secs, nanos }
    }

    /// Decides whether `self` is not later than `other`.
    pub fn is_at_or_before(&self, other: &Timestamp) -> (b: bool)
        ensures
            b == self.le(*other),
    {
        self.secs < other.secs || (self.secs == other.secs && self.nanos <= other.nanos)
    }

    /// Decides whether `self` lies between `start` and `end`, both included.
    pub fn is_within(&self, start: &Timestamp, end: &Timestamp) -> (b: bool)
        ensures
            b == self.within(*start, *end),
    {
        start.is_at_or_before(self) && self.is_at_or_before(end)
    }
}

/// The order of instants is total: of two instants one is not later than the other.
pub proof fn lemma_timestamp_le_total(a: Timestamp, b: Timestamp)
    ensures
        a.le(b) || b.le(a),
{
}

/// The order of instants is transitive.
pub proof fn lemma_timestamp_le_transitive(a: Timestamp, b: Timestamp, c: Timestamp)
    requires
        a.le(b),
        b.le(c),
    ensures
        a.le(c),
{
}

/// A catalog entry.
#[derive(Debug)]
pub struct Product {
    /// Identifier assigned when the product is created.
    pub id: String,
    /// Stock-keeping unit: the key under which the product is filed.
    pub sku: String,
    pub name: String,
    pub description: String,
    /// Stock on hand.
    pub quantity: u32,
    /// Stock level at or below which the product counts as low on stock.
    pub reorder_point: u32,
}

/// What a `Product` holds, as mathematical values.
pub struct ProductView {
    pub id: Seq<char>,
    pub sku: Seq<char>,
    pub name: Seq<char>,
    pub description: Seq<char>,
    pub quantity: int,
    pub reorder_point: int,
}

impl ProductView {
    /// The low-stock predicate: stock on hand is at or below the reorder point.
    pub open spec fn is_low(self) -> bool {
        self.quantity <= self.reorder_point
    }
}

impl View for Product {
    type V = ProductView;

    open spec fn view(&self) -> ProductView {
        ProductView {
            id: self.id@,
            sku: self.sku@,
            name: self.name@,
            description: self.description@,
            quantity: self.quantity as int,
            reorder_point: self.reorder_point as int,
        }
    }
}

impl DeepView for Product {
    type V = ProductView;

    open spec fn deep_view(&self) -> ProductView {
        self@
    }
}

impl Product {
    /// Decides the low-stock predicate.
    pub fn is_low_stock(&self) -> (b: bool)
        ensures
            b == self@.is_low(),
    {
        self.quantity <= self.reorder_point
    }
}

impl Clone for Product {
    fn clone(&self) -> (r: Self)
        ensures
            r == *self,
    {
        Product {
            id: self.id.clone(),
            sku: self.sku.clone(),
            name: self.name.clone(),
            description: self.description.clone(),
            quantity: self.quantity,
            reorder_point: self.reorder_point,
        }
    }
}

impl PartialEq for Product {
    fn eq(&self, other: &Self) -> (r: bool) {
        self.id == other.id && self.sku == other.sku && self.name == other.name
            && self.description == other.description && self.quantity == other.quantity
            && self.reorder_point == other.reorder_point
    }
}

impl vstd::std_specs::cmp::PartialEqSpecImpl for Product {
    open spec fn obeys_eq_spec() -> bool {
        true
    }

    open spec fn eq_spec(&self, other: &Self) -> bool {
        self@ == other@
    }
}

/// The direction of a stock movement.
#[derive(Clone, Copy, Debug, PartialEq, Eq, Structural)]
pub enum TransactionType {
    /// Stock came in.
    Addition,
    /// Stock went out.
    Removal,
}

impl TransactionType {
    /// The name of the variant, as shown to a reader.
    pub open spec fn label(self) -> Seq<char> {
        match self {
            TransactionType::Addition => "Addition"@,
            TransactionType::Removal => "Removal"@,
        }
    }

    /// The name of the variant: "Addition" or "Removal".
    pub fn to_string(&self) -> (s: String)
        ensures
            s@ == self.label(),
    {
        match self {
            TransactionType::Addition => String::from_str("Addition"),
            TransactionType::Removal => String::from_str("Removal"),
        }
    }
}

/// A ledger entry: one movement of stock of one product.
#[derive(Debug)]
pub struct Transaction {
    /// Identifier assigned when the movement is recorded.
    pub id: String,
    /// The SKU of the product that the movement applies to.
    pub product_sku: String,
    pub transaction_type: TransactionType,
    /// Units moved.
    pub quantity: u32,
    /// When the movement was recorded.
    pub timestamp: Timestamp,
    pub notes: Option<String>,
}

/// What a `Transaction` holds, as mathematical values.
pub struct TransactionView {
    pub id: Seq<char>,
    pub product_sku: Seq<char>,
    pub transaction_type: TransactionType,
    pub quantity: int,
    pub timestamp: Timestamp,
    pub notes: Option<Seq<char>>,
}

impl TransactionView {
    /// The change of stock that the movement stands for: positive for an
    /// addition, negative for a removal.
    pub open spec fn signed_quantity(self) -> int {
        match self.transaction_type {
            TransactionType::Addition => self.quantity,
            TransactionType::Removal => -self.quantity,
        }
    }
}

/// The view of an optional text.
pub open spec fn text_view(s: Option<String>) -> Option<Seq<char>> {
    match s {
        Some(t) => Some(t@),
        None => None,
    }
}

impl View for Transaction {
    type V = TransactionView;

    open spec fn view(&self) -> TransactionView {
        TransactionView {
            id: self.id@,
            product_sku: self.product_sku@,
            transaction_type: self.transaction_type,
            quantity: self.quantity as int,
            timestamp: self.timestamp,
            notes: text_view(self.notes),
        }
    }
}

impl DeepView for Transaction {
    type V = TransactionView;

    open spec fn deep_view(&self) -> TransactionView {
        self@
    }
}

/// Copies an optional text.
pub fn clone_text(s: &Option<String>) -> (r: Option<String>)
    ensures
        r == *s,
{
    match s {
        Some(t) => Some(t.clone()),
        None => None,
    }
}

/// Decides whether two optional texts read the same.
pub fn same_text(a: &Option<String>, b: &Option<String>) -> (r: bool)
    ensures
        r == (text_view(*a) == text_view(*b)),
{
    match (a, b) {
        (Some(x), Some(y)) => *x == *y,
        (None, None) => true,
        _ => false,
    }
}

impl Clone for Transaction {
    fn clone(&self) -> (r: Self)
        ensures
            r == *self,
    {
        Transaction {
            id: self.id.clone(),
            product_sku: self.product_sku.clone(),
            transaction_type: self.transaction_type,
            quantity: self.quantity,
            timestamp: self.timestamp,
            notes: clone_text(&self.notes),
        }
    }
}

impl PartialEq for Transaction {
    fn eq(&self, other: &Self) -> (r: bool) {
        self.id == other.id && self.product_sku == other.product_sku
            && self.transaction_type == other.transaction_type && self.quantity == other.quantity
            && self.timestamp == other.timestamp && same_text(&self.notes, &other.notes)
    }
}

impl vstd::std_specs::cmp::PartialEqSpecImpl for Transaction {
    open spec fn obeys_eq_spec() -> bool {
        true
    }

    open spec fn eq_spec(&self, other: &Self) -> bool {
        self@ == other@
    }
}

} // verus!
