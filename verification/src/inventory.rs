//! The inventory as a state machine: the catalog and the ledger as
//! mathematical values, the requests that change them, and what each
//! request does.

use crate::errors::ServiceErrorView;
use crate::ledger::{chronological, concerns, falls_within, spares};
use crate::models::{ProductView, Timestamp, TransactionType, TransactionView};
use crate::text::blank;
use vstd::prelude::*;

verus! {

/// The state of the inventory: the products, each filed under its SKU, and
/// the stock movements in the order in which they were recorded.
pub struct Inventory {
    pub catalog: Map<Seq<char>, ProductView>,
    pub ledger: Seq<TransactionView>,
}

/// A request that changes the inventory.
pub enum Operation {
    /// File a new product.
    AddProduct { product: ProductView },
    /// Change the name, the description or the reorder point of a product;
    /// a field that is `None` stays as it is.
    UpdateProduct {
        sku: Seq<char>,
        name: Option<Seq<char>>,
        description: Option<Seq<char>>,
        reorder_point: Option<int>,
    },
    /// Record a movement of stock, in or out.
    RecordMovement { movement: TransactionView },
    /// Take a product out of the catalog, and its movements out of the ledger.
    DeleteProduct { sku: Seq<char> },
}

impl Operation {
    /// The numbers of the request are amounts: none of them is negative.
    pub open spec fn well_formed(self) -> bool {
        match self {
            Operation::AddProduct { product } => product.quantity >= 0 && product.reorder_point
                >= 0,
            Operation::UpdateProduct { reorder_point, .. } => reorder_point matches Some(r) ==> r
                >= 0,
            Operation::RecordMovement { movement } => movement.quantity >= 0,
            Operation::DeleteProduct { .. } => true,
        }
    }
}

impl Inventory {
    /// The inventory with no product and no movement.
    pub open spec fn empty() -> Inventory {
        Inventory { catalog: Map::empty(), ledger: Seq::empty() }
    }

    /// A product is filed under `sku`.
    pub open spec fn has(self, sku: Seq<char>) -> bool {
        self.catalog.contains_key(sku)
    }

    /// The stock on hand of the product filed under `sku`; zero where there
    /// is no such product.
    pub open spec fn stock(self, sku: Seq<char>) -> int {
        if self.has(sku) {
            self.catalog[sku].quantity
        } else {
            0
        }
    }

    /// The catalog is finite, every product is filed under its own SKU, so
    /// that no two products share one, and no stock level or reorder point
    /// is negative.
    pub open spec fn wf(self) -> bool {
        &&& self.catalog.dom().finite()
        &&& forall|sku: Seq<char>| #[trigger]
            self.catalog.contains_key(sku) ==> {
                &&& self.catalog[sku].sku == sku
                &&& self.catalog[sku].quantity >= 0
                &&& self.catalog[sku].reorder_point >= 0
            }
    }

    /// The movements of the product filed under `sku`, in order of time;
    /// movements of the same instant in the order in which they were recorded.
    pub open spec fn history(self, sku: Seq<char>) -> Seq<TransactionView> {
        chronological(self.ledger.filter(concerns(sku)))
    }

    /// The movements of the product filed under `sku` that were recorded
    /// from `start` to `end`, both included, in order of time.
    pub open spec fn history_between(
        self,
        sku: Seq<char>,
        start: Timestamp,
        end: Timestamp,
    ) -> Seq<TransactionView> {
        chronological(self.ledger.filter(concerns(sku)).filter(falls_within(start, end)))
    }

    /// The inventory with `product` filed under its SKU.
    pub open spec fn with_product(self, product: ProductView) -> Inventory {
        Inventory { catalog: self.catalog.insert(product.sku, product), ..self }
    }

    /// The product filed under `sku` with the fields that are given changed.
    pub open spec fn revised(
        self,
        sku: Seq<char>,
        name: Option<Seq<char>>,
        description: Option<Seq<char>>,
        reorder_point: Option<int>,
    ) -> ProductView {
        let p = self.catalog[sku];
        ProductView {
            name: match name {
                Some(n) => n,
                None => p.name,
            },
            description: match description {
                Some(d) => d,
                None => p.description,
            },
            reorder_point: match reorder_point {
                Some(r) => r,
                None => p.reorder_point,
            },
            ..p
        }
    }

    /// The inventory with the movement appended to the ledger and applied to
    /// the stock of its product.
    pub open spec fn with_movement(self, movement: TransactionView) -> Inventory {
        let p = self.catalog[movement.product_sku];
        Inventory {
            catalog: self.catalog.insert(
                movement.product_sku,
                ProductView { quantity: p.quantity + movement.signed_quantity(), ..p },
            ),
            ledger: self.ledger.push(movement),
        }
    }

    /// The inventory without the product filed under `sku` and without the
    /// movements of that product.
    pub open spec fn without_product(self, sku: Seq<char>) -> Inventory {
        Inventory { catalog: self.catalog.remove(sku), ledger: self.ledger.filter(spares(sku)) }
    }

    /// Why the inventory turns the request down; `None` where it accepts it.
    pub open spec fn refusal(self, op: Operation) -> Option<ServiceErrorView> {
        match op {
            Operation::AddProduct { product } => {
                if blank(product.sku) {
                    Some(ServiceErrorView::InvalidInput("SKU cannot be empty"@))
                } else if blank(product.name) {
                    Some(ServiceErrorView::InvalidInput("Name cannot be empty"@))
                } else if self.has(product.sku) {
                    Some(ServiceErrorView::DuplicateSKU(product.sku))
                } else {
                    None
                }
            },
            Operation::UpdateProduct { sku, name, .. } => {
                if !self.has(sku) {
                    Some(ServiceErrorView::ProductNotFound(sku))
                } else if name matches Some(n) && blank(n) {
                    Some(ServiceErrorView::InvalidInput("Name cannot be empty"@))
                } else {
                    None
                }
            },
            Operation::RecordMovement { movement } => {
                if movement.quantity == 0 {
                    Some(ServiceErrorView::InvalidInput("Quantity must be positive"@))
                } else if !self.has(movement.product_sku) {
                    Some(ServiceErrorView::ProductNotFound(movement.product_sku))
                } else if movement.transaction_type == TransactionType::Removal
                    && movement.quantity > self.stock(movement.product_sku) {
                    Some(
                        ServiceErrorView::InsufficientStock {
                            sku: movement.product_sku,
                            requested: movement.quantity,
                            available: self.stock(movement.product_sku),
                        },
                    )
                } else {
                    None
                }
            },
            Operation::DeleteProduct { sku } => {
                if !self.has(sku) {
                    Some(ServiceErrorView::ProductNotFound(sku))
                } else {
                    None
                }
            },
        }
    }

    /// The inventory after the request, once it is accepted.
    pub open spec fn apply(self, op: Operation) -> Inventory {
        match op {
            Operation::AddProduct { product } => self.with_product(product),
            Operation::UpdateProduct { sku, name, description, reorder_point } => self.with_product(
                self.revised(sku, name, description, reorder_point),
            ),
            Operation::RecordMovement { movement } => self.with_movement(movement),
            Operation::DeleteProduct { sku } => self.without_product(sku),
        }
    }

    /// The inventory after the request: changed as the request asks where it
    /// is accepted, unchanged where it is turned down.
    pub open spec fn step(self, op: Operation) -> Inventory {
        if self.refusal(op) is None {
            self.apply(op)
        } else {
            self
        }
    }

    /// The inventory after a sequence of requests, one after the other.
    pub open spec fn run(self, ops: Seq<Operation>) -> Inventory
        decreases ops.len(),
    {
        if ops.len() == 0 {
            self
        } else {
            self.run(ops.drop_last()).step(ops.last())
        }
    }
}

} // verus!
