//! The decision core of a request-level cache: per-request cache configuration, the stored
//! entry format, freshness classification, and the walk from `Initial` to `Finish` that
//! decides between the store and the upstream.
pub mod backend;
pub mod cache;
pub mod entry;
pub mod error;
pub mod layer;
pub mod response;
pub mod settings;
pub mod states;
pub mod value;
pub mod walk;
