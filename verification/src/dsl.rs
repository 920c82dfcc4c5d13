//! The operators of the path types, as builders on expressions. Each takes
//! its operands by their types and refuses any other.

use crate::expression::{built, infix_outcome, CompositionError, Expr, Node, Operator};
use crate::sql_types::SqlType;
use vstd::prelude::*;

verus! {

/// Operators on an expression that is a label path.
pub trait LtreeExtensions: Sized + View<V = Node> {
    /// Whether this path is an ancestor of the other path, or of a path in the
    /// other array, or equal to it.
    fn contains(self, other: Expr) -> (r: Result<Expr, CompositionError>)
        ensures
            built(r) == infix_outcome(
                Operator::Contains,
                self@,
                other@,
                self@.sql_type_spec() == SqlType::Ltree && (other@.sql_type_spec() == SqlType::Ltree
                    || other@.sql_type_spec() == SqlType::LtreeArray),
            ),
    ;

    /// Whether this path is an ancestor of a path in the other array, or equal
    /// to one.
    fn contains_any(self, other: Expr) -> (r: Result<Expr, CompositionError>)
        ensures
            built(r) == infix_outcome(
                Operator::Contains,
                self@,
                other@,
                self@.sql_type_spec() == SqlType::Ltree
                    && other@.sql_type_spec() == SqlType::LtreeArray,
            ),
    ;

    /// Whether this path is a descendant of the other path, or of a path in the
    /// other array, or equal to it.
    fn contained_by(self, other: Expr) -> (r: Result<Expr, CompositionError>)
        ensures
            built(r) == infix_outcome(
                Operator::ContainedBy,
                self@,
                other@,
                self@.sql_type_spec() == SqlType::Ltree && (other@.sql_type_spec() == SqlType::Ltree
                    || other@.sql_type_spec() == SqlType::LtreeArray),
            ),
    ;

    /// Whether this path is a descendant of a path in the other array, or equal
    /// to one.
    fn contained_by_any(self, other: Expr) -> (r: Result<Expr, CompositionError>)
        ensures
            built(r) == infix_outcome(
                Operator::ContainedBy,
                self@,
                other@,
                self@.sql_type_spec() == SqlType::Ltree
                    && other@.sql_type_spec() == SqlType::LtreeArray,
            ),
    ;

    /// Whether this path matches the other pattern, or a pattern in the other
    /// array.
    fn matches(self, other: Expr) -> (r: Result<Expr, CompositionError>)
        ensures
            built(r) == infix_outcome(
                Operator::Matches,
                self@,
                other@,
                self@.sql_type_spec() == SqlType::Ltree && (other@.sql_type_spec() == SqlType::Lquery
                    || other@.sql_type_spec() == SqlType::LqueryArray),
            ),
    ;

    /// Whether this path matches any pattern in the other array.
    fn matches_any(self, other: Expr) -> (r: Result<Expr, CompositionError>)
        ensures
            built(r) == infix_outcome(
                Operator::MatchesAny,
                self@,
                other@,
                self@.sql_type_spec() == SqlType::Ltree
                    && other@.sql_type_spec() == SqlType::LqueryArray,
            ),
    ;

    /// Whether this path matches the other text query.
    fn tmatches(self, other: Expr) -> (r: Result<Expr, CompositionError>)
        ensures
            built(r) == infix_outcome(
                Operator::TMatches,
                self@,
                other@,
                self@.sql_type_spec() == SqlType::Ltree
                    && other@.sql_type_spec() == SqlType::Ltxtquery,
            ),
    ;

    /// This path with the other path after it.
    fn concat(self, other: Expr) -> (r: Result<Expr, CompositionError>)
        ensures
            built(r) == infix_outcome(
                Operator::Concat,
                self@,
                other@,
                self@.sql_type_spec() == SqlType::Ltree && other@.sql_type_spec() == SqlType::Ltree,
            ),
    ;
}

/// Operators on an expression that is an array of label paths.
pub trait LtreeArrayExtensions: Sized + View<V = Node> {
    /// Whether any path of this array is an ancestor of the other path, or
    /// equal to it.
    fn any_contains(self, other: Expr) -> (r: Result<Expr, CompositionError>)
        ensures
            built(r) == infix_outcome(
                Operator::Contains,
                self@,
                other@,
                self@.sql_type_spec() == SqlType::LtreeArray
                    && other@.sql_type_spec() == SqlType::Ltree,
            ),
    ;

    /// Whether any path of this array is a descendant of the other path, or
    /// equal to it.
    fn any_contained_by(self, other: Expr) -> (r: Result<Expr, CompositionError>)
        ensures
            built(r) == infix_outcome(
                Operator::ContainedBy,
                self@,
                other@,
                self@.sql_type_spec() == SqlType::LtreeArray
                    && other@.sql_type_spec() == SqlType::Ltree,
            ),
    ;

    /// Whether any path of this array matches the other pattern.
    fn any_matches(self, other: Expr) -> (r: Result<Expr, CompositionError>)
        ensures
            built(r) == infix_outcome(
                Operator::Matches,
                self@,
                other@,
                self@.sql_type_spec() == SqlType::LtreeArray
                    && other@.sql_type_spec() == SqlType::Lquery,
            ),
    ;

    /// Whether any path of this array matches any pattern in the other array.
    fn any_matches_any(self, other: Expr) -> (r: Result<Expr, CompositionError>)
        ensures
            built(r) == infix_outcome(
                Operator::MatchesAny,
                self@,
                other@,
                self@.sql_type_spec() == SqlType::LtreeArray
                    && other@.sql_type_spec() == SqlType::LqueryArray,
            ),
    ;

    /// Whether any path of this array matches the other text query.
    fn any_tmatches(self, other: Expr) -> (r: Result<Expr, CompositionError>)
        ensures
            built(r) == infix_outcome(
                Operator::TMatches,
                self@,
                other@,
                self@.sql_type_spec() == SqlType::LtreeArray
                    && other@.sql_type_spec() == SqlType::Ltxtquery,
            ),
    ;

    /// The first-entry form of `any_contains`: asks for the first path of this
    /// array that is an ancestor of the other path, or equal to it. It is typed
    /// as a truth value.
    fn first_contains(self, other: Expr) -> (r: Result<Expr, CompositionError>)
        ensures
            built(r) == infix_outcome(
                Operator::FirstContains,
                self@,
                other@,
                self@.sql_type_spec() == SqlType::LtreeArray
                    && other@.sql_type_spec() == SqlType::Ltree,
            ),
    ;

    /// The first-entry form of `any_contained_by`: asks for the first path of
    /// this array that is a descendant of the other path, or equal to it. It is
    /// typed as a truth value.
    fn first_contained_by(self, other: Expr) -> (r: Result<Expr, CompositionError>)
        ensures
            built(r) == infix_outcome(
                Operator::FirstContainedBy,
                self@,
                other@,
                self@.sql_type_spec() == SqlType::LtreeArray
                    && other@.sql_type_spec() == SqlType::Ltree,
            ),
    ;

    /// The first-entry form of `any_matches`: asks for the first path of this
    /// array that matches the other pattern. It is typed as a truth value.
    fn first_matches(self, other: Expr) -> (r: Result<Expr, CompositionError>)
        ensures
            built(r) == infix_outcome(
                Operator::FirstMatches,
                self@,
                other@,
                self@.sql_type_spec() == SqlType::LtreeArray
                    && other@.sql_type_spec() == SqlType::Lquery,
            ),
    ;

    /// The first-entry form of `any_tmatches`: asks for the first path of this
    /// array that matches the other text query. It is typed as a truth value.
    fn first_tmatches(self, other: Expr) -> (r: Result<Expr, CompositionError>)
        ensures
            built(r) == infix_outcome(
                Operator::FirstTMatches,
                self@,
                other@,
                self@.sql_type_spec() == SqlType::LtreeArray
                    && other@.sql_type_spec() == SqlType::Ltxtquery,
            ),
    ;
}

/// Operators on an expression that is a path pattern.
pub trait LqueryExtensions: Sized + View<V = Node> {
    /// Whether this pattern matches the other path.
    fn matches(self, other: Expr) -> (r: Result<Expr, CompositionError>)
        ensures
            built(r) == infix_outcome(
                Operator::Matches,
                self@,
                other@,
                self@.sql_type_spec() == SqlType::Lquery
                    && other@.sql_type_spec() == SqlType::Ltree,
            ),
    ;

    /// Whether this pattern matches any path in the other array.
    fn matches_any(self, other: Expr) -> (r: Result<Expr, CompositionError>)
        ensures
            built(r) == infix_outcome(
                Operator::Matches,
                self@,
                other@,
                self@.sql_type_spec() == SqlType::Lquery
                    && other@.sql_type_spec() == SqlType::LtreeArray,
            ),
    ;
}

/// Operators on an expression that is an array of path patterns.
pub trait LqueryArrayExtensions: Sized + View<V = Node> {
    /// Whether any pattern of this array matches the other path.
    fn any_matches(self, other: Expr) -> (r: Result<Expr, CompositionError>)
        ensures
            built(r) == infix_outcome(
                Operator::MatchesAny,
                self@,
                other@,
                self@.sql_type_spec() == SqlType::LqueryArray
                    && other@.sql_type_spec() == SqlType::Ltree,
            ),
    ;

    /// Whether any pattern of this array matches any path in the other array.
    fn any_matches_any(self, other: Expr) -> (r: Result<Expr, CompositionError>)
        ensures
            built(r) == infix_outcome(
                Operator::MatchesAny,
                self@,
                other@,
                self@.sql_type_spec() == SqlType::LqueryArray
                    && other@.sql_type_spec() == SqlType::LtreeArray,
            ),
    ;
}

/// Operators on an expression that is a path text query.
pub trait LtxtqueryExtensions: Sized + View<V = Node> {
    /// Whether this text query matches the other path.
    fn tmatches(self, other: Expr) -> (r: Result<Expr, CompositionError>)
        ensures
            built(r) == infix_outcome(
                Operator::TMatches,
                self@,
                other@,
                self@.sql_type_spec() == SqlType::Ltxtquery
                    && other@.sql_type_spec() == SqlType::Ltree,
            ),
    ;

    /// Whether this text query matches any path in the other array.
    fn tmatches_any(self, other: Expr) -> (r: Result<Expr, CompositionError>)
        ensures
            built(r) == infix_outcome(
                Operator::TMatches,
                self@,
                other@,
                self@.sql_type_spec() == SqlType::Ltxtquery
                    && other@.sql_type_spec() == SqlType::LtreeArray,
            ),
    ;
}

impl LtreeExtensions for Expr {
    fn contains(self, other: Expr) -> Result<Expr, CompositionError> {
        let left = self.sql_type();
        let right = other.sql_type();
        Expr::binary(
            Operator::Contains,
            self,
            other,
            left == SqlType::Ltree && (right == SqlType::Ltree || right == SqlType::LtreeArray),
        )
    }

    fn contains_any(self, other: Expr) -> Result<Expr, CompositionError> {
        let left = self.sql_type();
        let right = other.sql_type();
        Expr::binary(
            Operator::Contains,
            self,
            other,
            left == SqlType::Ltree && right == SqlType::LtreeArray,
        )
    }

    fn contained_by(self, other: Expr) -> Result<Expr, CompositionError> {
        let left = self.sql_type();
        let right = other.sql_type();
        Expr::binary(
            Operator::ContainedBy,
            self,
            other,
            left == SqlType::Ltree && (right == SqlType::Ltree || right == SqlType::LtreeArray),
        )
    }

    fn contained_by_any(self, other: Expr) -> Result<Expr, CompositionError> {
        let left = self.sql_type();
        let right = other.sql_type();
        Expr::binary(
            Operator::ContainedBy,
            self,
            other,
            left == SqlType::Ltree && right == SqlType::LtreeArray,
        )
    }

    fn matches(self, other: Expr) -> Result<Expr, CompositionError> {
        let left = self.sql_type();
        let right = other.sql_type();
        Expr::binary(
            Operator::Matches,
            self,
            other,
            left == SqlType::Ltree && (right == SqlType::Lquery || right == SqlType::LqueryArray),
        )
    }

    fn matches_any(self, other: Expr) -> Result<Expr, CompositionError> {
        let left = self.sql_type();
        let right = other.sql_type();
        Expr::binary(
            Operator::MatchesAny,
            self,
            other,
            left == SqlType::Ltree && right == SqlType::LqueryArray,
        )
    }

    fn tmatches(self, other: Expr) -> Result<Expr, CompositionError> {
        let left = self.sql_type();
        let right = other.sql_type();
        Expr::binary(
            Operator::TMatches,
            self,
            other,
            left == SqlType::Ltree && right == SqlType::Ltxtquery,
        )
    }

    fn concat(self, other: Expr) -> Result<Expr, CompositionError> {
        let left = self.sql_type();
        let right = other.sql_type();
        Expr::binary(
            Operator::Concat,
            self,
            other,
            left == SqlType::Ltree && right == SqlType::Ltree,
        )
    }
}

impl LtreeArrayExtensions for Expr {
    fn any_contains(self, other: Expr) -> Result<Expr, CompositionError> {
        let left = self.sql_type();
        let right = other.sql_type();
        Expr::binary(
            Operator::Contains,
            self,
            other,
            left == SqlType::LtreeArray && right == SqlType::Ltree,
        )
    }

    fn any_contained_by(self, other: Expr) -> Result<Expr, CompositionError> {
        let left = self.sql_type();
        let right = other.sql_type();
        Expr::binary(
            Operator::ContainedBy,
            self,
            other,
            left == SqlType::LtreeArray && right == SqlType::Ltree,
        )
    }

    fn any_matches(self, other: Expr) -> Result<Expr, CompositionError> {
        let left = self.sql_type();
        let right = other.sql_type();
        Expr::binary(
            Operator::Matches,
            self,
            other,
            left == SqlType::LtreeArray && right == SqlType::Lquery,
        )
    }

    fn any_matches_any(self, other: Expr) -> Result<Expr, CompositionError> {
        let left = self.sql_type();
        let right = other.sql_type();
        Expr::binary(
            Operator::MatchesAny,
            self,
            other,
            left == SqlType::LtreeArray && right == SqlType::LqueryArray,
        )
    }

    fn any_tmatches(self, other: Expr) -> Result<Expr, CompositionError> {
        let left = self.sql_type();
        let right = other.sql_type();
        Expr::binary(
            Operator::TMatches,
            self,
            other,
            left == SqlType::LtreeArray && right == SqlType::Ltxtquery,
        )
    }

    fn first_contains(self, other: Expr) -> Result<Expr, CompositionError> {
        let left = self.sql_type();
        let right = other.sql_type();
        Expr::binary(
            Operator::FirstContains,
            self,
            other,
            left == SqlType::LtreeArray && right == SqlType::Ltree,
        )
    }

    fn first_contained_by(self, other: Expr) -> Result<Expr, CompositionError> {
        let left = self.sql_type();
        let right = other.sql_type();
        Expr::binary(
            Operator::FirstContainedBy,
            self,
            other,
            left == SqlType::LtreeArray && right == SqlType::Ltree,
        )
    }

    fn first_matches(self, other: Expr) -> Result<Expr, CompositionError> {
        let left = self.sql_type();
        let right = other.sql_type();
        Expr::binary(
            Operator::FirstMatches,
            self,
            other,
            left == SqlType::LtreeArray && right == SqlType::Lquery,
        )
    }

    fn first_tmatches(self, other: Expr) -> Result<Expr, CompositionError> {
        let left = self.sql_type();
        let right = other.sql_type();
        Expr::binary(
            Operator::FirstTMatches,
            self,
            other,
            left == SqlType::LtreeArray && right == SqlType::Ltxtquery,
        )
    }
}

impl LqueryExtensions for Expr {
    fn matches(self, other: Expr) -> Result<Expr, CompositionError> {
        let left = self.sql_type();
        let right = other.sql_type();
        Expr::binary(
            Operator::Matches,
            self,
            other,
            left == SqlType::Lquery && right == SqlType::Ltree,
        )
    }

    fn matches_any(self, other: Expr) -> Result<Expr, CompositionError> {
        let left = self.sql_type();
        let right = other.sql_type();
        Expr::binary(
            Operator::Matches,
            self,
            other,
            left == SqlType::Lquery && right == SqlType::LtreeArray,
        )
    }
}

impl LqueryArrayExtensions for Expr {
    fn any_matches(self, other: Expr) -> Result<Expr, CompositionError> {
        let left = self.sql_type();
        let right = other.sql_type();
        Expr::binary(
            Operator::MatchesAny,
            self,
            other,
            left == SqlType::LqueryArray && right == SqlType::Ltree,
        )
    }

    fn any_matches_any(self, other: Expr) -> Result<Expr, CompositionError> {
        let left = self.sql_type();
        let right = other.sql_type();
        Expr::binary(
            Operator::MatchesAny,
            self,
            other,
            left == SqlType::LqueryArray && right == SqlType::LtreeArray,
        )
    }
}

impl LtxtqueryExtensions for Expr {
    fn tmatches(self, other: Expr) -> Result<Expr, CompositionError> {
        let left = self.sql_type();
        let right = other.sql_type();
        Expr::binary(
            Operator::TMatches,
            self,
            other,
            left == SqlType::Ltxtquery && right == SqlType::Ltree,
        )
    }

    fn tmatches_any(self, other: Expr) -> Result<Expr, CompositionError> {
        let left = self.sql_type();
        let right = other.sql_type();
        Expr::binary(
            Operator::TMatches,
            self,
            other,
            left == SqlType::Ltxtquery && right == SqlType::LtreeArray,
        )
    }
}

impl Expr {
    /// Whether this path is equal to the other. Both operands are paths.
    pub fn equals(self, other: Expr) -> (r: Result<Expr, CompositionError>)
        ensures
            built(r) == infix_outcome(
                Operator::Eq,
                self@,
                other@,
                self@.sql_type_spec() == SqlType::Ltree && other@.sql_type_spec() == SqlType::Ltree,
            ),
    {
        let left = self.sql_type();
        let right = other.sql_type();
        Expr::binary(
            Operator::Eq,
            self,
            other,
            left == SqlType::Ltree && right == SqlType::Ltree,
        )
    }

    /// Whether this path differs from the other. Both operands are paths.
    pub fn not_equals(self, other: Expr) -> (r: Result<Expr, CompositionError>)
        ensures
            built(r) == infix_outcome(
                Operator::NotEq,
                self@,
                other@,
                self@.sql_type_spec() == SqlType::Ltree && other@.sql_type_spec() == SqlType::Ltree,
            ),
    {
        let left = self.sql_type();
        let right = other.sql_type();
        Expr::binary(
            Operator::NotEq,
            self,
            other,
            left == SqlType::Ltree && right == SqlType::Ltree,
        )
    }

    /// Whether this path is ordered before the other. Both operands are paths.
    pub fn lt(self, other: Expr) -> (r: Result<Expr, CompositionError>)
        ensures
            built(r) == infix_outcome(
                Operator::Lt,
                self@,
                other@,
                self@.sql_type_spec() == SqlType::Ltree && other@.sql_type_spec() == SqlType::Ltree,
            ),
    {
        let left = self.sql_type();
        let right = other.sql_type();
        Expr::binary(
            Operator::Lt,
            self,
            other,
            left == SqlType::Ltree && right == SqlType::Ltree,
        )
    }

    /// Whether this path is ordered before the other, or equal to it. Both
    /// operands are paths.
    pub fn le(self, other: Expr) -> (r: Result<Expr, CompositionError>)
        ensures
            built(r) == infix_outcome(
                Operator::LtEq,
                self@,
                other@,
                self@.sql_type_spec() == SqlType::Ltree && other@.sql_type_spec() == SqlType::Ltree,
            ),
    {
        let left = self.sql_type();
        let right = other.sql_type();
        Expr::binary(
            Operator::LtEq,
            self,
            other,
            left == SqlType::Ltree && right == SqlType::Ltree,
        )
    }

    /// Whether this path is ordered after the other. Both operands are paths.
    pub fn gt(self, other: Expr) -> (r: Result<Expr, CompositionError>)
        ensures
            built(r) == infix_outcome(
                Operator::Gt,
                self@,
                other@,
                self@.sql_type_spec() == SqlType::Ltree && other@.sql_type_spec() == SqlType::Ltree,
            ),
    {
        let left = self.sql_type();
        let right = other.sql_type();
        Expr::binary(
            Operator::Gt,
            self,
            other,
            left == SqlType::Ltree && right == SqlType::Ltree,
        )
    }

    /// Whether this path is ordered after the other, or equal to it. Both
    /// operands are paths.
    pub fn ge(self, other: Expr) -> (r: Result<Expr, CompositionError>)
        ensures
            built(r) == infix_outcome(
                Operator::GtEq,
                self@,
                other@,
                self@.sql_type_spec() == SqlType::Ltree && other@.sql_type_spec() == SqlType::Ltree,
            ),
    {
        let left = self.sql_type();
        let right = other.sql_type();
        Expr::binary(
            Operator::GtEq,
            self,
            other,
            left == SqlType::Ltree && right == SqlType::Ltree,
        )
    }
}

} // verus!
