//! Storage of orders: the data model, the error kinds, the storage interface
//! and a concurrency-safe in-memory backend, all verified.

pub mod error;
pub mod order;
pub mod book;
pub mod in_mem_order_store;
pub mod order_store;
pub mod guarantees;
pub mod document_store;
