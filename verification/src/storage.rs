//! The persistence port of the inventory, and the rules of the JSON file
//! backend that do not touch the file system: where its two files lie, what
//! the outcome of reading a file means, and how its failures are worded.

use crate::errors::{StorageError, StorageErrorView};
use crate::models::{Product, Transaction};
use crate::text::{blank, is_blank};
use vstd::prelude::*;
use vstd::string::*;

verus! {

/// A place that keeps the products and the stock movements between runs.
///
/// Each save replaces the whole collection. A load of a collection that was
/// never saved gives an empty one; a load fails only where stored data
/// exists and cannot be read or decoded. Nothing is claimed here of what an
/// implementation returns: the inventory service is verified for every
/// outcome.
pub trait Storage {
    fn save_products(&self, products: &[Product]) -> Result<(), StorageError>;

    fn load_products(&self) -> Result<Vec<Product>, StorageError>;

    fn save_transactions(&self, transactions: &[Transaction]) -> Result<(), StorageError>;

    fn load_transactions(&self) -> Result<Vec<Transaction>, StorageError>;
}

/// `outcome` is an answer that `storage` may give when it is asked for the
/// products.
pub open spec fn loads_products<S: Storage + ?Sized>(
    storage: &S,
    outcome: Result<Vec<Product>, StorageError>,
) -> bool {
    call_ensures(S::load_products, (storage,), outcome)
}

/// `outcome` is an answer that `storage` may give when it is asked for the
/// stock movements.
pub open spec fn loads_transactions<S: Storage + ?Sized>(
    storage: &S,
    outcome: Result<Vec<Transaction>, StorageError>,
) -> bool {
    call_ensures(S::load_transactions, (storage,), outcome)
}

/// `outcome` is an answer that `storage` may give when it is asked to keep
/// `records` as the products.
pub open spec fn saves_products<S: Storage + ?Sized>(
    storage: &S,
    records: &[Product],
    outcome: Result<(), StorageError>,
) -> bool {
    call_ensures(S::save_products, (storage, records), outcome)
}

/// `outcome` is an answer that `storage` may give when it is asked to keep
/// `records` as the stock movements.
pub open spec fn saves_transactions<S: Storage + ?Sized>(
    storage: &S,
    records: &[Transaction],
    outcome: Result<(), StorageError>,
) -> bool {
    call_ensures(S::save_transactions, (storage, records), outcome)
}

/// Asks the storage for the products and hands its answer on.
pub fn load_products_from<S: Storage + ?Sized>(storage: &S) -> (outcome: Result<
    Vec<Product>,
    StorageError,
>)
    ensures
        loads_products(storage, outcome),
{
    storage.load_products()
}

/// Asks the storage for the stock movements and hands its answer on.
pub fn load_transactions_from<S: Storage + ?Sized>(storage: &S) -> (outcome: Result<
    Vec<Transaction>,
    StorageError,
>)
    ensures
        loads_transactions(storage, outcome),
{
    storage.load_transactions()
}

/// Asks the storage to keep `records` as the products and hands its answer
/// on.
pub fn save_products_to<S: Storage + ?Sized>(storage: &S, records: &[Product]) -> (outcome: Result<
    (),
    StorageError,
>)
    ensures
        saves_products(storage, records, outcome),
{
    storage.save_products(records)
}

/// Asks the storage to keep `records` as the stock movements and hands its
/// answer on.
pub fn save_transactions_to<S: Storage + ?Sized>(
    storage: &S,
    records: &[Transaction],
) -> (outcome: Result<(), StorageError>)
    ensures
        saves_transactions(storage, records, outcome),
{
    storage.save_transactions(records)
}

/// The path of the file `name` in the directory `dir`: the two joined by one
/// `/`, which is left out where `dir` is empty or ends in `/` already.
pub open spec fn child_path(dir: Seq<char>, name: Seq<char>) -> Seq<char> {
    if dir.len() == 0 || dir.last() == '/' {
        dir + name
    } else {
        dir + seq!['/'] + name
    }
}

/// Decides whether a path is empty or ends in `/`.
fn takes_no_separator(dir: &str) -> (b: bool)
    ensures
        b == (dir@.len() == 0 || dir@.last() == '/'),
{
    let mut b = true;
    for c in it: dir.chars()
        invariant
            it.seq() == dir@,
            b == (it.index() == 0 || dir@[it.index() - 1] == '/'),
    {
        b = c == '/';
    }
    b
}

/// Joins a directory and a file name into the path of the file.
pub fn join_path(dir: &str, name: &str) -> (path: String)
    ensures
        path@ == child_path(dir@, name@),
{
    let path = String::from_str(dir);
    if takes_no_separator(dir) {
        path.concat(name)
    } else {
        proof {
            reveal_strlit("/");
            assert("/"@ =~= seq!['/']);
        }
        path.concat("/").concat(name)
    }
}

/// The JSON file backend's two files: one for the products, one for the
/// stock movements.
pub struct JsonStorage {
    products_path: String,
    transactions_path: String,
}

impl JsonStorage {
    /// The path of the file that keeps the products.
    pub closed spec fn products_file(&self) -> Seq<char> {
        self.products_path@
    }

    /// The path of the file that keeps the stock movements.
    pub closed spec fn transactions_file(&self) -> Seq<char> {
        self.transactions_path@
    }

    /// A backend that keeps its files in `dir`, as `products.json` and
    /// `transactions.json`.
    pub fn new(dir: &str) -> (s: Self)
        ensures
            s.products_file() == child_path(dir@, "products.json"@),
            s.transactions_file() == child_path(dir@, "transactions.json"@),
    {
        JsonStorage {
            products_path: join_path(dir, "products.json"),
            transactions_path: join_path(dir, "transactions.json"),
        }
    }

    /// A backend that keeps its files at the two paths given.
    pub fn with_paths(products_path: &str, transactions_path: &str) -> (s: Self)
        ensures
            s.products_file() == products_path@,
            s.transactions_file() == transactions_path@,
    {
        JsonStorage {
            products_path: String::from_str(products_path),
            transactions_path: String::from_str(transactions_path),
        }
    }

    /// The path of the file that keeps the products.
    pub fn products_path(&self) -> (p: &str)
        ensures
            p@ == self.products_file(),
    {
        self.products_path.as_str()
    }

    /// The path of the file that keeps the stock movements.
    pub fn transactions_path(&self) -> (p: &str)
        ensures
            p@ == self.transactions_file(),
    {
        self.transactions_path.as_str()
    }
}

/// What an attempt to read a file gave.
#[derive(Debug)]
pub enum FileRead {
    /// There is no such file.
    Missing,
    /// The file exists and could not be read; the cause, in words.
    Failed(String),
    /// The text of the file.
    Contents(String),
}

/// What a file holds, once its reading is interpreted.
#[derive(Debug)]
pub enum Stored {
    /// No record: the file is missing or holds nothing but whitespace.
    Nothing,
    /// The text that encodes the records.
    Text(String),
}

/// What the outcome of reading the file at `path` means: a missing file and
/// a blank file hold no record, any other text is to be decoded, and a
/// failed read is a read error that names the file and the cause.
pub open spec fn stored_in(path: Seq<char>, read: FileRead) -> Result<Stored, StorageErrorView> {
    match read {
        FileRead::Missing => Ok(Stored::Nothing),
        FileRead::Failed(cause) => Err(read_failure_view(path, cause@)),
        FileRead::Contents(text) => if blank(text@) {
            Ok(Stored::Nothing)
        } else {
            Ok(Stored::Text(text))
        },
    }
}

/// The result of `interpret_read`, with the error by its view.
pub open spec fn stored_view(r: Result<Stored, StorageError>) -> Result<Stored, StorageErrorView> {
    match r {
        Ok(s) => Ok(s),
        Err(e) => Err(e@),
    }
}

/// Interprets the outcome of reading the file at `path`.
pub fn interpret_read(path: &str, read: FileRead) -> (r: Result<Stored, StorageError>)
    ensures
        stored_view(r) == stored_in(path@, read),
{
    match read {
        FileRead::Missing => Ok(Stored::Nothing),
        FileRead::Failed(cause) => Err(read_failure(path, cause.as_str())),
        FileRead::Contents(text) => {
            if is_blank(text.as_str()) {
                Ok(Stored::Nothing)
            } else {
                Ok(Stored::Text(text))
            }
        },
    }
}

/// The error for a file that exists and could not be read.
pub open spec fn read_failure_view(path: Seq<char>, cause: Seq<char>) -> StorageErrorView {
    StorageErrorView::ReadError("Failed to read "@ + path + ": "@ + cause)
}

/// The error for a file whose text could not be decoded.
pub open spec fn parse_failure_view(path: Seq<char>, cause: Seq<char>) -> StorageErrorView {
    StorageErrorView::ParseError("Failed to parse "@ + path + ": "@ + cause)
}

/// The error for a directory that could not be created.
pub open spec fn directory_failure_view(dir: Seq<char>, cause: Seq<char>) -> StorageErrorView {
    StorageErrorView::WriteError("Failed to create directory "@ + dir + ": "@ + cause)
}

/// The error for records that could not be encoded.
pub open spec fn encode_failure_view(cause: Seq<char>) -> StorageErrorView {
    StorageErrorView::WriteError("Failed to serialize data: "@ + cause)
}

/// The error for a file that could not be written.
pub open spec fn write_failure_view(path: Seq<char>, cause: Seq<char>) -> StorageErrorView {
    StorageErrorView::WriteError("Failed to write "@ + path + ": "@ + cause)
}

/// Words the error for a file that exists and could not be read.
pub fn read_failure(path: &str, cause: &str) -> (e: StorageError)
    ensures
        e@ == read_failure_view(path@, cause@),
{
    StorageError::ReadError(String::from_str("Failed to read ").concat(path).concat(": ").concat(cause))
}

/// Words the error for a file whose text could not be decoded.
pub fn parse_failure(path: &str, cause: &str) -> (e: StorageError)
    ensures
        e@ == parse_failure_view(path@, cause@),
{
    StorageError::ParseError(
        String::from_str("Failed to parse ").concat(path).concat(": ").concat(cause),
    )
}

/// Words the error for a directory that could not be created.
pub fn directory_failure(dir: &str, cause: &str) -> (e: StorageError)
    ensures
        e@ == directory_failure_view(dir@, cause@),
{
    StorageError::WriteError(
        String::from_str("Failed to create directory ").concat(dir).concat(": ").concat(cause),
    )
}

/// Words the error for records that could not be encoded.
pub fn encode_failure(cause: &str) -> (e: StorageError)
    ensures
        e@ == encode_failure_view(cause@),
{
    StorageError::WriteError(String::from_str("Failed to serialize data: ").concat(cause))
}

/// Words the error for a file that could not be written.
pub fn write_failure(path: &str, cause: &str) -> (e: StorageError)
    ensures
        e@ == write_failure_view(path@, cause@),
{
    StorageError::WriteError(
        String::from_str("Failed to write ").concat(path).concat(": ").concat(cause),
    )
}

} // verus!
