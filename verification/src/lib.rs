//! Sans-I/O core of a JSON document store that keeps one pretty-printed JSON
//! file per document inside a per-user application directory.

pub mod codec;
pub mod disk;
pub mod error;
pub mod location;
pub mod store;
