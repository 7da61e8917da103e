//! Inventory control: a catalog of products keyed by SKU, an append-only
//! ledger of stock movements, and the rules that keep the two consistent.
//!
//! - `models`, `errors`: the records and the errors, each with its view.
//! - `inventory`: the inventory as a state machine over mathematical values.
//! - `catalog`, `ledger`: the mathematics of the two collections.
//! - `laws`: what holds of every state and every sequence of requests.
//! - `service`: the inventory service, verified against the state machine.
//! - `storage`: the persistence port, and the rules of the JSON file backend.
//! - `cli`, `render`: the commands of the command line and what they print.
//! - `text`, `clock`, `ident`: whitespace and numbers, instants, identifiers.

pub mod catalog;
pub mod cli;
pub mod clock;
pub mod errors;
pub mod ident;
pub mod inventory;
pub mod laws;
pub mod ledger;
pub mod models;
pub mod render;
pub mod service;
pub mod storage;
pub mod text;
