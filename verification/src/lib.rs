//! A schema-driven configuration reconciliation engine.
//!
//! The crate compiles a structural schema description into a typed node tree,
//! merges externally supplied generic values into that tree while tracking
//! which parts were explicitly set, and projects the explicitly-set parts
//! back into a generic value for persistence.

pub mod number;
pub mod value;
pub mod eq;
pub mod merge;
pub mod node;
pub mod node_lemmas;
pub mod node_ops;
pub mod apply;
pub mod to_value;
pub mod laws;
pub mod schema;
pub mod gen_schema;
pub mod test_common;

pub use number::Number;
pub use value::Value;
