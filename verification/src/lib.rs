//! A typed SQL query construction layer: typed column descriptions, an
//! immutable predicate tree, and a state-tagged statement builder that
//! renders one SQL string together with a positional list of bound values.

pub mod builder;
pub mod collection;
pub mod column;
pub mod entity;
pub mod expr;
pub mod model;
pub mod ordering;
pub mod reference;
pub mod relation;
pub mod text;
pub mod value;
