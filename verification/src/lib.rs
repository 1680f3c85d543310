//! The transactional core of a marketplace for agricultural investment:
//! participants, offers, requests against offers, and the transactions that
//! accepted requests leave behind.
//!
//! `market` holds the operations, `ledger` says what each of them does to
//! four mathematical maps, and `laws` holds what follows for every ledger.
//! The maps live in stable memory (`table`), each record as bytes (`codec`).
pub mod api;
pub mod codec;
pub mod errors;
pub mod fields;
pub mod guard;
pub mod ident;
pub mod laws;
pub mod ledger;
pub mod listing;
pub mod market;
pub mod records;
pub mod store;
pub mod table;
pub mod types;
pub mod wire;
