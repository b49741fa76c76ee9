//! Client-side decoding of package-registry feed documents.
//!
//! The heart of the crate is a set of schema-aware decoders that walk an
//! already parsed XML tree in document order and either produce a fully
//! populated record or a structured error naming the failing field.  The
//! tree itself is a plain value type (`xml_util::XmlDocument`), so callers
//! may produce it from any XML parser.

pub mod client;
pub mod common;
pub mod context;
pub mod query;
pub mod xml_util;
