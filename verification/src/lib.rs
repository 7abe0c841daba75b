//! A fixed-ratio sale of a fungible asset for native value.
//!
//! An administrator deposits "out" tokens into the sale's custody; buyers
//! exchange native value for those tokens at a fixed `in_unit : out_unit`
//! ratio, with partial fills and automatic refunds when inventory runs short.
//! The external asset- and native-transfer collaborators are modelled by the
//! [`host::SaleHost`] capability trait; [`in_memory::InMemoryHost`] is a
//! verified in-memory implementation of it.

pub mod errors;
pub mod host;
pub mod in_memory;
pub mod sale;
pub mod settlement;
pub mod types;
pub mod wide;
