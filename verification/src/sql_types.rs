//! The semantic types that an expression can have.

use vstd::prelude::*;

verus! {

/// The semantic type of an expression: what it evaluates to in the store.
#[derive(Debug, Clone, Copy, PartialEq, Eq, Hash, Structural)]
pub enum SqlType {
    /// A label path.
    Ltree,
    /// A path pattern.
    Lquery,
    /// A path text query.
    Ltxtquery,
    /// Plain text.
    Text,
    /// A 32-bit integer.
    Int4,
    /// A truth value.
    Bool,
    /// An array of label paths.
    LtreeArray,
    /// An array of path patterns.
    LqueryArray,
    /// An array of path text queries.
    LtxtqueryArray,
}

impl SqlType {
    /// The name of this type in the store.
    pub open spec fn name_spec(self) -> Seq<char> {
        match self {
            SqlType::Ltree => "ltree"@,
            SqlType::Lquery => "lquery"@,
            SqlType::Ltxtquery => "ltxtquery"@,
            SqlType::Text => "text"@,
            SqlType::Int4 => "int4"@,
            SqlType::Bool => "bool"@,
            SqlType::LtreeArray => "ltree[]"@,
            SqlType::LqueryArray => "lquery[]"@,
            SqlType::LtxtqueryArray => "ltxtquery[]"@,
        }
    }

    /// The name of this type in the store.
    pub fn name(self) -> (name: &'static str)
        ensures
            name@ == self.name_spec(),
    {
        match self {
            SqlType::Ltree => "ltree",
            SqlType::Lquery => "lquery",
            SqlType::Ltxtquery => "ltxtquery",
            SqlType::Text => "text",
            SqlType::Int4 => "int4",
            SqlType::Bool => "bool",
            SqlType::LtreeArray => "ltree[]",
            SqlType::LqueryArray => "lquery[]",
            SqlType::LtxtqueryArray => "ltxtquery[]",
        }
    }
}

} // verus!
