//! Support for PostgreSQL's `ltree` label paths: the wire codec of a path
//! value, and a typed algebra of query expressions over paths, path patterns
//! and path text queries.
//!
//! A query fragment is an [`expression::Expr`]: a tree whose every node has a
//! semantic type, built bottom-up by the operators of [`dsl`] and the
//! functions of [`functions`], each of which refuses parts of the wrong type.
//! [`render`] turns a tree into query text with numbered placeholders and the
//! list of the values to bind. [`values`] holds the path value and its codecs.

pub mod dsl;
pub mod expression;
pub mod functions;
pub mod render;
pub mod sql_types;
pub mod values;

pub use crate::dsl::{
    LqueryArrayExtensions, LqueryExtensions, LtreeArrayExtensions, LtreeExtensions,
    LtxtqueryExtensions,
};
pub use crate::functions::{
    index, lca, lquery, ltree2text, ltxtquery, nlevel, subltree, subpath, text2ltree,
};
pub use crate::values::{DecodeError, Ltree};
