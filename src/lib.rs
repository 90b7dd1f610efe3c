pub mod bitmap;
pub mod builder;
pub mod error;
pub mod filter;
pub mod handle;
pub mod key;
pub mod models;
pub mod registry;
pub mod search;
pub mod upsert;
pub mod usearch_index;
