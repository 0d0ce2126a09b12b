//! A read-only catalog of collectible coin records.
//!
//! The catalog is loaded once from a JSON document, held immutably, and
//! queried by linear scan. Records are rendered back to JSON text by a
//! verified serializer, so the HTTP shell around this crate only moves
//! bytes.

pub mod catalog;
pub mod coin;
pub mod json;
pub mod text;

pub use catalog::Catalog;
pub use catalog::LoadError;
pub use catalog::health;
pub use catalog::load_catalog;
pub use catalog::not_found_body;
pub use coin::Coin;
