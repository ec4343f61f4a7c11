//! Barcode resolution and payment QR bookkeeping for a small point-of-sale
//! backend.
//!
//! The crate holds the decisions of the backend as verified functions on
//! plain values: which statements reach the store and with which bindings,
//! how a catalog answer becomes a product, and which reply each request gets.
//! Reading the clock, talking to the store and to the catalog are left to
//! the caller, who hands the outcomes in.

pub mod models;
pub mod db;
pub mod catalog;
pub mod api;
