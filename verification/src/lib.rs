//! Core of a personal-finance bookkeeping backend: a filtered transaction
//! query and aggregation engine.
//!
//! The library holds the logic worth stating precisely: sign-normalization
//! of monetary amounts by transaction kind, the closed category/type
//! vocabulary with strict parsing, the parameterized predicate builder that
//! composes a WHERE clause from an optional filter set, the row mapper that
//! reconstructs typed transactions from storage rows, and the aggregator
//! that folds a filtered set into a signed total.
//!
//! Monetary amounts are exact decimals held as a fixed-point integer number
//! of cents; identifiers are 128-bit values; timestamps are integer epoch
//! values. The surrounding program converts at the boundary and performs all
//! I/O; nothing here touches storage or the network.

pub mod errors;
pub mod vocab;
pub mod models;
pub mod builder;
pub mod rows;
pub mod aggregate;
pub mod requests;
