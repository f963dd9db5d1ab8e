//! Runtime configuration of a PostgreSQL connection-pooling proxy.
//!
//! A configuration is decoded from TOML text ([`decode`]), judged against the
//! structural rules of the proxy ([`validate`]), and made the active one in a
//! [`store::ConfigStore`], which hands out independent copies of it. A reload
//! repeats the pipeline and says what changed. [`shared::SharedStore`] puts the
//! store in a cell that every thread can read without waiting.
//!
//! The library reads no file and decodes no credential. Its caller does, and
//! passes in what it found.

pub mod decode;
pub mod document;
pub mod errors;
pub mod report;
pub mod schema;
pub mod shards;
pub mod shared;
pub mod store;
pub mod text;
pub mod validate;
