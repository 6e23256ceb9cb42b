//! The analysis that turns the declaration of an annotated structure into
//! the description of a node.
//!
//! The declaration arrives as plain data ([`input`]): the name of the
//! structure, its fields with their declared types, and the `cypher(...)`
//! options written on them. The analysis reads the options ([`attr`]),
//! gathers every mistake it meets in one pass ([`context`]), and plans how
//! each field becomes a property or a label of the node ([`cyp_que`]).
pub mod ast;
pub mod attr;
pub mod context;
pub mod cyp_que;
pub mod input;
pub mod record;
