//! Conversion of parsed expression trees into one canonical, JSON-isomorphic
//! structured value.
//!
//! The library models two source grammars — the expression grammar of Rust
//! source text and the PromQL query grammar — as plain owned trees, and
//! converts each tree into a [`value::Value`]. Every converter is total:
//! shapes the schema does not model structurally are carried as opaque
//! re-rendered text, and unrecognized node kinds degrade to a tagged
//! fallback object instead of an error.

pub mod ast;
pub mod convert;
pub mod laws;
pub mod promql;
pub mod value;

pub use convert::expr_to_json;
pub use convert::lit_to_json;
pub use value::Value;
