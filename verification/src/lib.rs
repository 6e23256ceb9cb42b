//! A staged builder of Cypher query text.
//!
//! Entities (nodes and relations) carry typed property values; the builder
//! stages turn them into `CREATE`, `MATCH`, `WHERE`, `SET`, `DELETE` and
//! `RETURN` clauses. Every stage is an immutable value that offers only the
//! clauses that may follow it, and every clause is specified by a function
//! over sequences of characters.
//!
//! - [`entity`]: property values, property maps, nodes and relations.
//! - [`query`]: the stages of a query and the text that each clause adds.
//! - [`schema`]: how the declaration of an annotated structure becomes the
//!   plan of a node, and an instance of the structure a node.
//! - [`text`]: joining of text and the decimal notation of numbers.
pub mod entity;
pub mod query;
pub mod schema;
pub mod text;

use vstd::prelude::*;

verus! {

/// Implemented by what knows how to begin a query about itself.
pub trait CypherTrait: Sized {
    /// The stage at which a query about this value begins.
    fn cypher(&self) -> query::Query;
}

} // verus!
