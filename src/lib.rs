//! A footprint-mediated, budget-metered storage layer for a contract host.
//!
//! Every access to durable ledger state goes through a [`storage::Storage`],
//! which either records the access in a [`footprint::Footprint`] (while
//! discovering a transaction's footprint against a snapshot) or enforces a
//! previously declared one. Every map operation is charged to a
//! [`budget::Budget`].

pub mod budget;
pub mod contract_error;
pub mod error;
pub mod footprint;
pub mod metered_map;
pub mod storage;
pub mod temp_storage;
