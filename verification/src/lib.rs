//! A bridge between an HTTP ingress, a message broker and a relational store.
//!
//! An envelope names a mutation of one stored row. The producer side encodes
//! it and publishes it on a fixed topic; the consumer side decodes each record,
//! applies it to the store and commits the record's offset afterwards, so that
//! every record is delivered at least once.

pub mod envelope;
pub mod json;
pub mod codec;
pub mod store;
pub mod consumer;
pub mod gateway;
pub mod settings;
