//! The functions of the path types, as builders on expressions. Each takes
//! its arguments by the types of its parameters and refuses any other.

use crate::expression::{
    applied, first_mismatch, nodes_of, types_of, CompositionError, Expr, Function,
};
use crate::sql_types::SqlType;
use vstd::prelude::*;

verus! {

/// The part of a path from position `start` up to position `end`, both counted
/// from zero, the second not included. Not to be taken for `subpath`, which
/// counts a length.
///
/// The arguments have to be of types `Ltree`, `Int4`, `Int4`; the error tells
/// the first that is not.
pub fn subltree(ltree: Expr, start: Expr, end: Expr) -> (r: Result<Expr, CompositionError>)
    ensures
        applied(r, Function::Subltree, seq![ltree@, start@, end@]),
        r is Ok <==> {
            &&& ltree@.sql_type_spec() == SqlType::Ltree
            &&& start@.sql_type_spec() == SqlType::Int4
            &&& end@.sql_type_spec() == SqlType::Int4
        },
{
    let ghost nodes = seq![ltree@, start@, end@];
    let arguments = vec![ltree, start, end];
    proof {
        assert(nodes_of(arguments@) =~= nodes);
        assert(types_of(nodes) =~= seq![
            ltree@.sql_type_spec(),
            start@.sql_type_spec(),
            end@.sql_type_spec(),
        ]);
        reveal_with_fuel(first_mismatch, 4);
    }
    Expr::call(Function::Subltree, arguments)
}

/// The part of a path that starts at position `offset` and has `len` labels. A
/// negative `offset` counts from the end, a negative `len` leaves that many
/// labels off the end.
///
/// The arguments have to be of types `Ltree`, `Int4`, `Int4`; the error tells
/// the first that is not.
pub fn subpath(ltree: Expr, offset: Expr, len: Expr) -> (r: Result<Expr, CompositionError>)
    ensures
        applied(r, Function::Subpath, seq![ltree@, offset@, len@]),
        r is Ok <==> {
            &&& ltree@.sql_type_spec() == SqlType::Ltree
            &&& offset@.sql_type_spec() == SqlType::Int4
            &&& len@.sql_type_spec() == SqlType::Int4
        },
{
    let ghost nodes = seq![ltree@, offset@, len@];
    let arguments = vec![ltree, offset, len];
    proof {
        assert(nodes_of(arguments@) =~= nodes);
        assert(types_of(nodes) =~= seq![
            ltree@.sql_type_spec(),
            offset@.sql_type_spec(),
            len@.sql_type_spec(),
        ]);
        reveal_with_fuel(first_mismatch, 4);
    }
    Expr::call(Function::Subpath, arguments)
}

/// The number of labels in a path.
///
/// The argument has to be of type `Ltree`; any other is refused.
pub fn nlevel(ltree: Expr) -> (r: Result<Expr, CompositionError>)
    ensures
        applied(r, Function::Nlevel, seq![ltree@]),
        r is Ok <==> ltree@.sql_type_spec() == SqlType::Ltree,
{
    let ghost nodes = seq![ltree@];
    let arguments = vec![ltree];
    proof {
        assert(nodes_of(arguments@) =~= nodes);
        assert(types_of(nodes) =~= seq![ltree@.sql_type_spec()]);
        reveal_with_fuel(first_mismatch, 2);
    }
    Expr::call(Function::Nlevel, arguments)
}

/// The position of the first occurrence of `b` in `a` at or after `offset`, or
/// -1. A negative `offset` is handed on as it is: the store counts it from the
/// end.
///
/// The arguments have to be of types `Ltree`, `Ltree`, `Int4`; the error tells
/// the first that is not.
pub fn index(a: Expr, b: Expr, offset: Expr) -> (r: Result<Expr, CompositionError>)
    ensures
        applied(r, Function::Index, seq![a@, b@, offset@]),
        r is Ok <==> {
            &&& a@.sql_type_spec() == SqlType::Ltree
            &&& b@.sql_type_spec() == SqlType::Ltree
            &&& offset@.sql_type_spec() == SqlType::Int4
        },
{
    let ghost nodes = seq![a@, b@, offset@];
    let arguments = vec![a, b, offset];
    proof {
        assert(nodes_of(arguments@) =~= nodes);
        assert(types_of(nodes) =~= seq![
            a@.sql_type_spec(),
            b@.sql_type_spec(),
            offset@.sql_type_spec(),
        ]);
        reveal_with_fuel(first_mismatch, 4);
    }
    Expr::call(Function::Index, arguments)
}

/// A text taken as a path.
///
/// The argument has to be of type `Text`; any other is refused.
pub fn text2ltree(text: Expr) -> (r: Result<Expr, CompositionError>)
    ensures
        applied(r, Function::Text2ltree, seq![text@]),
        r is Ok <==> text@.sql_type_spec() == SqlType::Text,
{
    let ghost nodes = seq![text@];
    let arguments = vec![text];
    proof {
        assert(nodes_of(arguments@) =~= nodes);
        assert(types_of(nodes) =~= seq![text@.sql_type_spec()]);
        reveal_with_fuel(first_mismatch, 2);
    }
    Expr::call(Function::Text2ltree, arguments)
}

/// A path taken as text.
///
/// The argument has to be of type `Ltree`; any other is refused.
pub fn ltree2text(ltree: Expr) -> (r: Result<Expr, CompositionError>)
    ensures
        applied(r, Function::Ltree2text, seq![ltree@]),
        r is Ok <==> ltree@.sql_type_spec() == SqlType::Ltree,
{
    let ghost nodes = seq![ltree@];
    let arguments = vec![ltree];
    proof {
        assert(nodes_of(arguments@) =~= nodes);
        assert(types_of(nodes) =~= seq![ltree@.sql_type_spec()]);
        reveal_with_fuel(first_mismatch, 2);
    }
    Expr::call(Function::Ltree2text, arguments)
}

/// The longest common ancestor of the paths in an array.
///
/// The argument has to be of type `LtreeArray`; any other is refused.
pub fn lca(ltrees: Expr) -> (r: Result<Expr, CompositionError>)
    ensures
        applied(r, Function::Lca, seq![ltrees@]),
        r is Ok <==> ltrees@.sql_type_spec() == SqlType::LtreeArray,
{
    let ghost nodes = seq![ltrees@];
    let arguments = vec![ltrees];
    proof {
        assert(nodes_of(arguments@) =~= nodes);
        assert(types_of(nodes) =~= seq![ltrees@.sql_type_spec()]);
        reveal_with_fuel(first_mismatch, 2);
    }
    Expr::call(Function::Lca, arguments)
}

/// A text taken as a path pattern.
///
/// The argument has to be of type `Text`; any other is refused.
pub fn lquery(x: Expr) -> (r: Result<Expr, CompositionError>)
    ensures
        applied(r, Function::Lquery, seq![x@]),
        r is Ok <==> x@.sql_type_spec() == SqlType::Text,
{
    let ghost nodes = seq![x@];
    let arguments = vec![x];
    proof {
        assert(nodes_of(arguments@) =~= nodes);
        assert(types_of(nodes) =~= seq![x@.sql_type_spec()]);
        reveal_with_fuel(first_mismatch, 2);
    }
    Expr::call(Function::Lquery, arguments)
}

/// A text taken as a path text query.
///
/// The argument has to be of type `Text`; any other is refused.
pub fn ltxtquery(x: Expr) -> (r: Result<Expr, CompositionError>)
    ensures
        applied(r, Function::Ltxtquery, seq![x@]),
        r is Ok <==> x@.sql_type_spec() == SqlType::Text,
{
    let ghost nodes = seq![x@];
    let arguments = vec![x];
    proof {
        assert(nodes_of(arguments@) =~= nodes);
        assert(types_of(nodes) =~= seq![x@.sql_type_spec()]);
        reveal_with_fuel(first_mismatch, 2);
    }
    Expr::call(Function::Ltxtquery, arguments)
}

} // verus!
