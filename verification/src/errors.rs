//! The errors that storage and the inventory service report.

use crate::text::{decimal, decimal_text};
use vstd::prelude::*;
use vstd::string::*;

verus! {

/// What can go wrong in a storage backend.
#[derive(Debug)]
pub enum StorageError {
    /// The stored data exists but could not be read.
    ReadError(String),
    /// The data could not be written.
    WriteError(String),
    /// The stored data could not be decoded.
    ParseError(String),
    /// The stored data does not exist.
    FileNotFound(String),
}

/// What a `StorageError` holds, as mathematical values.
pub enum StorageErrorView {
    ReadError(Seq<char>),
    WriteError(Seq<char>),
    ParseError(Seq<char>),
    FileNotFound(Seq<char>),
}

impl StorageErrorView {
    /// The error as a sentence for a reader.
    pub open spec fn text(self) -> Seq<char> {
        match self {
            StorageErrorView::ReadError(m) => "Failed to read from storage: "@ + m,
            StorageErrorView::WriteError(m) => "Failed to write to storage: "@ + m,
            StorageErrorView::ParseError(m) => "Failed to parse storage data: "@ + m,
            StorageErrorView::FileNotFound(m) => "Storage file not found: "@ + m,
        }
    }
}

impl View for StorageError {
    type V = StorageErrorView;

    open spec fn view(&self) -> StorageErrorView {
        match self {
            StorageError::ReadError(m) => StorageErrorView::ReadError(m@),
            StorageError::WriteError(m) => StorageErrorView::WriteError(m@),
            StorageError::ParseError(m) => StorageErrorView::ParseError(m@),
            StorageError::FileNotFound(m) => StorageErrorView::FileNotFound(m@),
        }
    }
}

impl StorageError {
    /// The error as a sentence for a reader.
    pub fn to_string(&self) -> (s: String)
        ensures
            s@ == self@.text(),
    {
        match self {
            StorageError::ReadError(m) => String::from_str("Failed to read from storage: ").concat(
                m.as_str(),
            ),
            StorageError::WriteError(m) => String::from_str("Failed to write to storage: ").concat(
                m.as_str(),
            ),
            StorageError::ParseError(m) => String::from_str(
                "Failed to parse storage data: ",
            ).concat(m.as_str()),
            StorageError::FileNotFound(m) => String::from_str("Storage file not found: ").concat(
                m.as_str(),
            ),
        }
    }
}

impl Clone for StorageError {
    fn clone(&self) -> (r: Self)
        ensures
            r == *self,
    {
        match self {
            StorageError::ReadError(m) => StorageError::ReadError(m.clone()),
            StorageError::WriteError(m) => StorageError::WriteError(m.clone()),
            StorageError::ParseError(m) => StorageError::ParseError(m.clone()),
            StorageError::FileNotFound(m) => StorageError::FileNotFound(m.clone()),
        }
    }
}

impl PartialEq for StorageError {
    fn eq(&self, other: &Self) -> (r: bool) {
        match (self, other) {
            (StorageError::ReadError(a), StorageError::ReadError(b)) => *a == *b,
            (StorageError::WriteError(a), StorageError::WriteError(b)) => *a == *b,
            (StorageError::ParseError(a), StorageError::ParseError(b)) => *a == *b,
            (StorageError::FileNotFound(a), StorageError::FileNotFound(b)) => *a == *b,
            _ => false,
        }
    }
}

impl vstd::std_specs::cmp::PartialEqSpecImpl for StorageError {
    open spec fn obeys_eq_spec() -> bool {
        true
    }

    open spec fn eq_spec(&self, other: &Self) -> bool {
        self@ == other@
    }
}

/// Why the inventory service turned a request down, or failed to record it.
#[derive(Debug)]
pub enum ServiceError {
    /// No product is filed under the SKU.
    ProductNotFound(String),
    /// A product is already filed under the SKU.
    DuplicateSKU(String),
    /// An argument was empty or zero where it must not be.
    InvalidInput(String),
    /// More stock was asked for than is on hand.
    InsufficientStock { sku: String, requested: u32, available: u32 },
    /// The storage backend failed.
    StorageError(StorageError),
}

/// What a `ServiceError` holds, as mathematical values.
pub enum ServiceErrorView {
    ProductNotFound(Seq<char>),
    DuplicateSKU(Seq<char>),
    InvalidInput(Seq<char>),
    InsufficientStock { sku: Seq<char>, requested: int, available: int },
    StorageError(StorageErrorView),
}

impl ServiceErrorView {
    /// The error as a sentence for a reader.
    pub open spec fn text(self) -> Seq<char> {
        match self {
            ServiceErrorView::ProductNotFound(sku) => "Product not found: "@ + sku,
            ServiceErrorView::DuplicateSKU(sku) => "Product with SKU '"@ + sku
                + "' already exists"@,
            ServiceErrorView::InvalidInput(m) => "Invalid input: "@ + m,
            ServiceErrorView::InsufficientStock { sku, requested, available } =>
                "Insufficient stock for product '"@ + sku + "': requested "@ + decimal_text(
                    requested as nat,
                ) + ", available "@ + decimal_text(available as nat),
            ServiceErrorView::StorageError(e) => "Storage error: "@ + e.text(),
        }
    }
}

impl View for ServiceError {
    type V = ServiceErrorView;

    open spec fn view(&self) -> ServiceErrorView {
        match self {
            ServiceError::ProductNotFound(sku) => ServiceErrorView::ProductNotFound(sku@),
            ServiceError::DuplicateSKU(sku) => ServiceErrorView::DuplicateSKU(sku@),
            ServiceError::InvalidInput(m) => ServiceErrorView::InvalidInput(m@),
            ServiceError::InsufficientStock { sku, requested, available } =>
                ServiceErrorView::InsufficientStock {
                    sku: sku@,
                    requested: *requested as int,
                    available: *available as int,
                },
            ServiceError::StorageError(e) => ServiceErrorView::StorageError(e@),
        }
    }
}

impl ServiceError {
    /// The error as a sentence for a reader.
    pub fn to_string(&self) -> (s: String)
        ensures
            s@ == self@.text(),
    {
        match self {
            ServiceError::ProductNotFound(sku) => String::from_str("Product not found: ").concat(
                sku.as_str(),
            ),
            ServiceError::DuplicateSKU(sku) => String::from_str("Product with SKU '").concat(
                sku.as_str(),
            ).concat("' already exists"),
            ServiceError::InvalidInput(m) => String::from_str("Invalid input: ").concat(
                m.as_str(),
            ),
            ServiceError::InsufficientStock { sku, requested, available } => {
                let wanted = decimal(*requested as u64);
                let on_hand = decimal(*available as u64);
                String::from_str("Insufficient stock for product '").concat(sku.as_str()).concat(
                    "': requested ",
                ).concat(wanted.as_str()).concat(", available ").concat(on_hand.as_str())
            },
            ServiceError::StorageError(e) => {
                let inner = e.to_string();
                String::from_str("Storage error: ").concat(inner.as_str())
            },
        }
    }

    /// The storage error behind this error, if there is one.
    pub fn source(&self) -> (r: Option<&StorageError>)
        ensures
            match *self {
                ServiceError::StorageError(e) => r == Some(&e),
                _ => r is None,
            },
    {
        match self {
            ServiceError::StorageError(e) => Some(e),
            _ => None,
        }
    }
}

impl Clone for ServiceError {
    fn clone(&self) -> (r: Self)
        ensures
            r == *self,
    {
        match self {
            ServiceError::ProductNotFound(sku) => ServiceError::ProductNotFound(sku.clone()),
            ServiceError::DuplicateSKU(sku) => ServiceError::DuplicateSKU(sku.clone()),
            ServiceError::InvalidInput(m) => ServiceError::InvalidInput(m.clone()),
            ServiceError::InsufficientStock { sku, requested, available } =>
                ServiceError::InsufficientStock {
                    sku: sku.clone(),
                    requested: *requested,
                    available: *available,
                },
            ServiceError::StorageError(e) => ServiceError::StorageError(e.clone()),
        }
    }
}

impl PartialEq for ServiceError {
    fn eq(&self, other: &Self) -> (r: bool) {
        match (self, other) {
            (ServiceError::ProductNotFound(a), ServiceError::ProductNotFound(b)) => *a == *b,
            (ServiceError::DuplicateSKU(a), ServiceError::DuplicateSKU(b)) => *a == *b,
            (ServiceError::InvalidInput(a), ServiceError::InvalidInput(b)) => *a == *b,
            (
                ServiceError::InsufficientStock { sku: a, requested: ra, available: aa },
                ServiceError::InsufficientStock { sku: b, requested: rb, available: ab },
            ) => *a == *b && *ra == *rb && *aa == *ab,
            (ServiceError::StorageError(a), ServiceError::StorageError(b)) => *a == *b,
            _ => false,
        }
    }
}

impl vstd::std_specs::cmp::PartialEqSpecImpl for ServiceError {
    open spec fn obeys_eq_spec() -> bool {
        true
    }

    open spec fn eq_spec(&self, other: &Self) -> bool {
        self@ == other@
    }
}

impl From<StorageError> for ServiceError {
    fn from(err: StorageError) -> (r: Self) {
        ServiceError::StorageError(err)
    }
}

impl vstd::std_specs::convert::FromSpecImpl<StorageError> for ServiceError {
    open spec fn obeys_from_spec() -> bool {
        true
    }

    open spec fn from_spec(v: StorageError) -> Self {
        ServiceError::StorageError(v)
    }
}

} // verus!
