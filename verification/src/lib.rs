//! Document metadata values as returned by the Firecrawl API, and the
//! decoders that turn their JSON shapes into Rust values.

pub mod document;
pub mod flexible_value;
pub mod json;
pub mod text;
