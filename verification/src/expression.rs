//! Expression trees, each node tagged with its semantic type, and the
//! builders that refuse a tree whose parts do not fit.

use crate::sql_types::SqlType;
use crate::values::Ltree;
use vstd::prelude::*;

verus! {

/// A concrete value that is bound as a parameter of the query.
#[derive(Debug, Clone, PartialEq, Eq)]
pub enum Value {
    Ltree(Ltree),
    Lquery(String),
    Ltxtquery(String),
    Text(String),
    Int4(i32),
    LtreeArray(Vec<Ltree>),
    LqueryArray(Vec<String>),
    LtxtqueryArray(Vec<String>),
}

impl Value {
    /// The semantic type of this value.
    pub open spec fn sql_type_spec(self) -> SqlType {
        match self {
            Value::Ltree(_) => SqlType::Ltree,
            Value::Lquery(_) => SqlType::Lquery,
            Value::Ltxtquery(_) => SqlType::Ltxtquery,
            Value::Text(_) => SqlType::Text,
            Value::Int4(_) => SqlType::Int4,
            Value::LtreeArray(_) => SqlType::LtreeArray,
            Value::LqueryArray(_) => SqlType::LqueryArray,
            Value::LtxtqueryArray(_) => SqlType::LtxtqueryArray,
        }
    }

    /// The semantic type of this value.
    pub fn sql_type(&self) -> (t: SqlType)
        ensures
            t == self.sql_type_spec(),
    {
        match self {
            Value::Ltree(_) => SqlType::Ltree,
            Value::Lquery(_) => SqlType::Lquery,
            Value::Ltxtquery(_) => SqlType::Ltxtquery,
            Value::Text(_) => SqlType::Text,
            Value::Int4(_) => SqlType::Int4,
            Value::LtreeArray(_) => SqlType::LtreeArray,
            Value::LqueryArray(_) => SqlType::LqueryArray,
            Value::LtxtqueryArray(_) => SqlType::LtxtqueryArray,
        }
    }
}

/// The infix operators of the path types.
#[derive(Debug, Clone, Copy, PartialEq, Eq, Hash, Structural)]
pub enum Operator {
    Contains,
    ContainedBy,
    Eq,
    NotEq,
    Lt,
    LtEq,
    Gt,
    GtEq,
    Matches,
    MatchesAny,
    TMatches,
    Concat,
    FirstContains,
    FirstContainedBy,
    FirstMatches,
    FirstTMatches,
}

impl Operator {
    /// The operator as it stands between its operands, spaces included.
    pub open spec fn token_spec(self) -> Seq<char> {
        match self {
            Operator::Contains => " @> "@,
            Operator::ContainedBy => " <@ "@,
            Operator::Eq => " = "@,
            Operator::NotEq => " <> "@,
            Operator::Lt => " < "@,
            Operator::LtEq => " <= "@,
            Operator::Gt => " > "@,
            Operator::GtEq => " >= "@,
            Operator::Matches => " ~ "@,
            Operator::MatchesAny => " ? "@,
            Operator::TMatches => " @ "@,
            Operator::Concat => " || "@,
            Operator::FirstContains => " ?@> "@,
            Operator::FirstContainedBy => " ?<@ "@,
            Operator::FirstMatches => " ?~ "@,
            Operator::FirstTMatches => " ?@ "@,
        }
    }

    /// The operator as it stands between its operands, spaces included.
    pub fn token(self) -> (token: &'static str)
        ensures
            token@ == self.token_spec(),
    {
        match self {
            Operator::Contains => " @> ",
            Operator::ContainedBy => " <@ ",
            Operator::Eq => " = ",
            Operator::NotEq => " <> ",
            Operator::Lt => " < ",
            Operator::LtEq => " <= ",
            Operator::Gt => " > ",
            Operator::GtEq => " >= ",
            Operator::Matches => " ~ ",
            Operator::MatchesAny => " ? ",
            Operator::TMatches => " @ ",
            Operator::Concat => " || ",
            Operator::FirstContains => " ?@> ",
            Operator::FirstContainedBy => " ?<@ ",
            Operator::FirstMatches => " ?~ ",
            Operator::FirstTMatches => " ?@ ",
        }
    }

    /// Whether the operator takes operands of these two types.
    pub open spec fn accepts(self, left: SqlType, right: SqlType) -> bool {
        match self {
            Operator::Contains | Operator::ContainedBy => {
                ||| left == SqlType::Ltree && right == SqlType::Ltree
                ||| left == SqlType::Ltree && right == SqlType::LtreeArray
                ||| left == SqlType::LtreeArray && right == SqlType::Ltree
            },
            Operator::Eq
            | Operator::NotEq
            | Operator::Lt
            | Operator::LtEq
            | Operator::Gt
            | Operator::GtEq
            | Operator::Concat => left == SqlType::Ltree && right == SqlType::Ltree,
            Operator::Matches => {
                ||| left == SqlType::Ltree && right == SqlType::Lquery
                ||| left == SqlType::Ltree && right == SqlType::LqueryArray
                ||| left == SqlType::LtreeArray && right == SqlType::Lquery
                ||| left == SqlType::Lquery && right == SqlType::Ltree
                ||| left == SqlType::Lquery && right == SqlType::LtreeArray
            },
            Operator::MatchesAny => {
                ||| left == SqlType::Ltree && right == SqlType::LqueryArray
                ||| left == SqlType::LtreeArray && right == SqlType::LqueryArray
                ||| left == SqlType::LqueryArray && right == SqlType::Ltree
                ||| left == SqlType::LqueryArray && right == SqlType::LtreeArray
            },
            Operator::TMatches => {
                ||| left == SqlType::Ltree && right == SqlType::Ltxtquery
                ||| left == SqlType::LtreeArray && right == SqlType::Ltxtquery
                ||| left == SqlType::Ltxtquery && right == SqlType::Ltree
                ||| left == SqlType::Ltxtquery && right == SqlType::LtreeArray
            },
            Operator::FirstContains | Operator::FirstContainedBy => {
                left == SqlType::LtreeArray && right == SqlType::Ltree
            },
            Operator::FirstMatches => left == SqlType::LtreeArray && right == SqlType::Lquery,
            Operator::FirstTMatches => left == SqlType::LtreeArray && right == SqlType::Ltxtquery,
        }
    }

    /// The type of what the operator gives: a path for the concatenation, a
    /// truth value for every other operator.
    pub open spec fn result_type_spec(self) -> SqlType {
        match self {
            Operator::Concat => SqlType::Ltree,
            _ => SqlType::Bool,
        }
    }

    /// The type of what the operator gives.
    pub fn result_type(self) -> (t: SqlType)
        ensures
            t == self.result_type_spec(),
    {
        match self {
            Operator::Concat => SqlType::Ltree,
            _ => SqlType::Bool,
        }
    }

    /// Decides whether the operator takes operands of these two types.
    pub fn takes(self, left: SqlType, right: SqlType) -> (b: bool)
        ensures
            b == self.accepts(left, right),
    {
        match self {
            Operator::Contains | Operator::ContainedBy => {
                (left == SqlType::Ltree && (right == SqlType::Ltree || right
                    == SqlType::LtreeArray)) || (left == SqlType::LtreeArray && right
                    == SqlType::Ltree)
            },
            Operator::Eq
            | Operator::NotEq
            | Operator::Lt
            | Operator::LtEq
            | Operator::Gt
            | Operator::GtEq
            | Operator::Concat => left == SqlType::Ltree && right == SqlType::Ltree,
            Operator::Matches => {
                (left == SqlType::Ltree && (right == SqlType::Lquery || right
                    == SqlType::LqueryArray)) || (left == SqlType::LtreeArray && right
                    == SqlType::Lquery) || (left == SqlType::Lquery && (right == SqlType::Ltree
                    || right == SqlType::LtreeArray))
            },
            Operator::MatchesAny => {
                ((left == SqlType::Ltree || left == SqlType::LtreeArray) && right
                    == SqlType::LqueryArray) || (left == SqlType::LqueryArray && (right
                    == SqlType::Ltree || right == SqlType::LtreeArray))
            },
            Operator::TMatches => {
                ((left == SqlType::Ltree || left == SqlType::LtreeArray) && right
                    == SqlType::Ltxtquery) || (left == SqlType::Ltxtquery && (right
                    == SqlType::Ltree || right == SqlType::LtreeArray))
            },
            Operator::FirstContains | Operator::FirstContainedBy => {
                left == SqlType::LtreeArray && right == SqlType::Ltree
            },
            Operator::FirstMatches => left == SqlType::LtreeArray && right == SqlType::Lquery,
            Operator::FirstTMatches => left == SqlType::LtreeArray && right == SqlType::Ltxtquery,
        }
    }
}

/// The functions of the path types.
#[derive(Debug, Clone, Copy, PartialEq, Eq, Hash, Structural)]
pub enum Function {
    Subltree,
    Subpath,
    Nlevel,
    Index,
    Text2ltree,
    Ltree2text,
    Lca,
    Lquery,
    Ltxtquery,
}

impl Function {
    /// The name under which the store knows the function.
    pub open spec fn name_spec(self) -> Seq<char> {
        match self {
            Function::Subltree => "subltree"@,
            Function::Subpath => "subpath"@,
            Function::Nlevel => "nlevel"@,
            Function::Index => "index"@,
            Function::Text2ltree => "text2ltree"@,
            Function::Ltree2text => "ltree2text"@,
            Function::Lca => "lca"@,
            Function::Lquery => "lquery"@,
            Function::Ltxtquery => "ltxtquery"@,
        }
    }

    /// The name under which the store knows the function.
    pub fn name(self) -> (name: &'static str)
        ensures
            name@ == self.name_spec(),
    {
        match self {
            Function::Subltree => "subltree",
            Function::Subpath => "subpath",
            Function::Nlevel => "nlevel",
            Function::Index => "index",
            Function::Text2ltree => "text2ltree",
            Function::Ltree2text => "ltree2text",
            Function::Lca => "lca",
            Function::Lquery => "lquery",
            Function::Ltxtquery => "ltxtquery",
        }
    }

    /// The types of the function's parameters, in order.
    pub open spec fn parameters(self) -> Seq<SqlType> {
        match self {
            Function::Subltree | Function::Subpath => seq![
                SqlType::Ltree,
                SqlType::Int4,
                SqlType::Int4,
            ],
            Function::Nlevel | Function::Ltree2text => seq![SqlType::Ltree],
            Function::Index => seq![SqlType::Ltree, SqlType::Ltree, SqlType::Int4],
            Function::Text2ltree | Function::Lquery | Function::Ltxtquery => seq![SqlType::Text],
            Function::Lca => seq![SqlType::LtreeArray],
        }
    }

    /// The type of what the function returns.
    pub open spec fn return_type_spec(self) -> SqlType {
        match self {
            Function::Subltree | Function::Subpath | Function::Text2ltree | Function::Lca => {
                SqlType::Ltree
            },
            Function::Nlevel | Function::Index => SqlType::Int4,
            Function::Ltree2text => SqlType::Text,
            Function::Lquery => SqlType::Lquery,
            Function::Ltxtquery => SqlType::Ltxtquery,
        }
    }

    /// The type of what the function returns.
    pub fn return_type(self) -> (t: SqlType)
        ensures
            t == self.return_type_spec(),
    {
        match self {
            Function::Subltree | Function::Subpath | Function::Text2ltree | Function::Lca => {
                SqlType::Ltree
            },
            Function::Nlevel | Function::Index => SqlType::Int4,
            Function::Ltree2text => SqlType::Text,
            Function::Lquery => SqlType::Lquery,
            Function::Ltxtquery => SqlType::Ltxtquery,
        }
    }

    /// The number of parameters.
    pub fn arity(self) -> (n: usize)
        ensures
            n == self.parameters().len(),
    {
        match self {
            Function::Subltree | Function::Subpath | Function::Index => 3,
            _ => 1,
        }
    }

    /// The type of the parameter at `position`, counted from zero, if the
    /// function has that many.
    pub fn parameter(self, position: usize) -> (t: Option<SqlType>)
        ensures
            t == if position < self.parameters().len() {
                Some(self.parameters()[position as int])
            } else {
                None::<SqlType>
            },
    {
        match self {
            Function::Subltree | Function::Subpath => {
                if position == 0 {
                    Some(SqlType::Ltree)
                } else if position < 3 {
                    Some(SqlType::Int4)
                } else {
                    None
                }
            },
            Function::Index => {
                if position < 2 {
                    Some(SqlType::Ltree)
                } else if position == 2 {
                    Some(SqlType::Int4)
                } else {
                    None
                }
            },
            Function::Nlevel | Function::Ltree2text => {
                if position == 0 {
                    Some(SqlType::Ltree)
                } else {
                    None
                }
            },
            Function::Text2ltree | Function::Lquery | Function::Ltxtquery => {
                if position == 0 {
                    Some(SqlType::Text)
                } else {
                    None
                }
            },
            Function::Lca => {
                if position == 0 {
                    Some(SqlType::LtreeArray)
                } else {
                    None
                }
            },
        }
    }
}

/// A node of an expression tree.
#[derive(Debug, PartialEq, Eq)]
pub enum Node {
    /// A value bound as a parameter.
    Bind(Value),
    /// A column of a table, with the type that the schema declares for it.
    Column { table: String, name: String, sql_type: SqlType },
    /// A text expression taken as a pattern or as a text query.
    Cast { inner: Box<Node>, target: SqlType },
    /// An operator between two operands.
    Infix { operator: Operator, left: Box<Node>, right: Box<Node> },
    /// A function applied to its arguments.
    Call { function: Function, arguments: Vec<Node> },
}

/// Whether text can be taken as a value of type `target`.
pub open spec fn is_cast_target(target: SqlType) -> bool {
    target == SqlType::Lquery || target == SqlType::Ltxtquery
}

impl Node {
    /// The semantic type of the node.
    pub open spec fn sql_type_spec(self) -> SqlType {
        match self {
            Node::Bind(value) => value.sql_type_spec(),
            Node::Column { sql_type, .. } => sql_type,
            Node::Cast { target, .. } => target,
            Node::Infix { operator, .. } => operator.result_type_spec(),
            Node::Call { function, .. } => function.return_type_spec(),
        }
    }

    /// Whether every node of the tree has children of the types that its
    /// operator, function or coercion asks for.
    pub open spec fn well_typed(self) -> bool
        decreases self,
    {
        match self {
            Node::Bind(_) => true,
            Node::Column { .. } => true,
            Node::Cast { inner, target } => {
                &&& inner.well_typed()
                &&& inner.sql_type_spec() == SqlType::Text
                &&& is_cast_target(target)
            },
            Node::Infix { operator, left, right } => {
                &&& left.well_typed()
                &&& right.well_typed()
                &&& operator.accepts(left.sql_type_spec(), right.sql_type_spec())
            },
            Node::Call { function, arguments } => {
                &&& arguments@.len() == function.parameters().len()
                &&& forall|i: int|
                    0 <= i < arguments@.len() ==> {
                        &&& (#[trigger] arguments@[i]).well_typed()
                        &&& arguments@[i].sql_type_spec() == function.parameters()[i]
                    }
            },
        }
    }

    /// The semantic type of the node.
    pub fn sql_type(&self) -> (t: SqlType)
        ensures
            t == self.sql_type_spec(),
    {
        match self {
            Node::Bind(value) => value.sql_type(),
            Node::Column { sql_type, .. } => *sql_type,
            Node::Cast { target, .. } => *target,
            Node::Infix { operator, .. } => operator.result_type(),
            Node::Call { function, .. } => function.return_type(),
        }
    }

    /// Decides whether the tree is well typed.
    pub fn check(&self) -> (b: bool)
        ensures
            b == self.well_typed(),
        decreases self,
    {
        match self {
            Node::Bind(_) => true,
            Node::Column { .. } => true,
            Node::Cast { inner, target } => {
                inner.check() && inner.sql_type() == SqlType::Text && (*target == SqlType::Lquery
                    || *target == SqlType::Ltxtquery)
            },
            Node::Infix { operator, left, right } => {
                left.check() && right.check() && operator.takes(left.sql_type(), right.sql_type())
            },
            Node::Call { function, arguments } => {
                if arguments.len() != function.arity() {
                    return false;
                }
                let mut i: usize = 0;
                while i < arguments.len()
                    invariant
                        i <= arguments@.len(),
                        arguments@.len() == function.parameters().len(),
                        *self is Call,
                        (*self)->arguments == *arguments,
                        (*self)->function == *function,
                        forall|k: int|
                            0 <= k < i ==> {
                                &&& (#[trigger] arguments@[k]).well_typed()
                                &&& arguments@[k].sql_type_spec() == function.parameters()[k]
                            },
                    decreases arguments@.len() - i,
                {
                    proof {
                        vstd::std_specs::vec::axiom_vec_index_decreases(*arguments, i as int);
                        assert(decreases_to!(*self => (*self)->arguments));
                    }
                    let argument = &arguments[i];
                    if !argument.check() || Some(argument.sql_type()) != function.parameter(i) {
                        return false;
                    }
                    i += 1;
                }
                true
            },
        }
    }
}

/// Why two or more expressions could not be put together.
#[derive(Debug, Clone, Copy, PartialEq, Eq, Structural)]
pub enum CompositionError {
    /// The operator does not take operands of these two types.
    Operands { operator: Operator, left: SqlType, right: SqlType },
    /// The function was given `given` arguments, which is not its arity.
    ArgumentCount { function: Function, given: usize },
    /// The argument at `position`, counted from zero, has type `found`,
    /// which is not the type of the function's parameter there.
    Argument { function: Function, position: usize, found: SqlType },
    /// An expression of type `from` cannot be taken as one of type `to`.
    Coercion { from: SqlType, to: SqlType },
}

/// A well-typed expression tree. It can only be made by the builders of this
/// crate, each of which refuses parts that do not fit.
#[derive(Debug, PartialEq, Eq)]
pub struct Expr {
    node: Node,
}

impl View for Expr {
    type V = Node;

    closed spec fn view(&self) -> Node {
        self.node
    }
}

/// The tree that a builder made, or the error with which it refused.
pub open spec fn built(r: Result<Expr, CompositionError>) -> Result<Node, CompositionError> {
    match r {
        Ok(e) => Ok(e@),
        Err(error) => Err(error),
    }
}

/// What applying `operator` to `left` and `right` gives, where `accepted`
/// says whether the builder takes operands of their types.
pub open spec fn infix_outcome(operator: Operator, left: Node, right: Node, accepted: bool) -> Result<
    Node,
    CompositionError,
> {
    if accepted {
        Ok(Node::Infix { operator, left: Box::new(left), right: Box::new(right) })
    } else {
        Err(
            CompositionError::Operands {
                operator,
                left: left.sql_type_spec(),
                right: right.sql_type_spec(),
            },
        )
    }
}

/// What taking `inner` as a value of type `target` gives.
pub open spec fn cast_outcome(inner: Node, target: SqlType) -> Result<Node, CompositionError> {
    if inner.sql_type_spec() == SqlType::Text && is_cast_target(target) {
        Ok(Node::Cast { inner: Box::new(inner), target })
    } else {
        Err(CompositionError::Coercion { from: inner.sql_type_spec(), to: target })
    }
}

/// What the builders give is well typed: where the operands are well typed
/// and the operator takes operands of their types, the operator node is well
/// typed, and so is the coercion of a well-typed tree wherever it is not
/// refused.
pub proof fn lemma_outcomes_are_well_typed(
    operator: Operator,
    left: Node,
    right: Node,
    accepted: bool,
    target: SqlType,
)
    requires
        left.well_typed(),
        right.well_typed(),
        accepted ==> operator.accepts(left.sql_type_spec(), right.sql_type_spec()),
    ensures
        infix_outcome(operator, left, right, accepted) matches Ok(node) ==> node.well_typed()
            && node.sql_type_spec() == operator.result_type_spec(),
        cast_outcome(left, target) matches Ok(node) ==> node.well_typed() && node.sql_type_spec()
            == target,
{
}

/// The first argument from position `from` on whose type is not the type of
/// the parameter at its position, as an error.
pub open spec fn first_mismatch(function: Function, types: Seq<SqlType>, from: int) -> Option<
    CompositionError,
>
    decreases types.len() - from,
{
    if from < 0 || from >= types.len() {
        None
    } else if from >= function.parameters().len() || types[from] != function.parameters()[from] {
        Some(
            CompositionError::Argument { function, position: from as usize, found: types[from] },
        )
    } else {
        first_mismatch(function, types, from + 1)
    }
}

/// The error with which arguments of these types are refused, if they are.
pub open spec fn call_error(function: Function, types: Seq<SqlType>) -> Option<CompositionError> {
    if types.len() != function.parameters().len() {
        Some(CompositionError::ArgumentCount { function, given: types.len() as usize })
    } else {
        first_mismatch(function, types, 0)
    }
}

/// The trees of a sequence of expressions.
pub open spec fn nodes_of(expressions: Seq<Expr>) -> Seq<Node> {
    expressions.map_values(|e: Expr| e@)
}

/// The types of a sequence of trees.
pub open spec fn types_of(nodes: Seq<Node>) -> Seq<SqlType> {
    nodes.map_values(|n: Node| n.sql_type_spec())
}

/// Whether `r` is what applying `function` to `arguments` gives: the call,
/// where the arguments fit the parameters, and else the error that tells why
/// they do not.
pub open spec fn applied(
    r: Result<Expr, CompositionError>,
    function: Function,
    arguments: Seq<Node>,
) -> bool {
    match r {
        Ok(e) => {
            &&& call_error(function, types_of(arguments)) is None
            &&& e@ matches Node::Call { function: f, arguments: a }
            &&& f == function
            &&& a@ == arguments
        },
        Err(error) => call_error(function, types_of(arguments)) == Some(error),
    }
}

impl Expr {
    #[verifier::type_invariant]
    spec fn typed(self) -> bool {
        self.node.well_typed()
    }

    /// The tree of this expression, which is well typed.
    pub fn node(&self) -> (node: &Node)
        ensures
            *node == self@,
            node.well_typed(),
    {
        proof {
            use_type_invariant(self);
        }
        &self.node
    }

    /// The semantic type of this expression.
    pub fn sql_type(&self) -> (t: SqlType)
        ensures
            t == self@.sql_type_spec(),
    {
        self.node.sql_type()
    }

    /// Takes a tree as an expression, if it is well typed.
    pub fn from_node(node: Node) -> (r: Option<Expr>)
        ensures
            r is Some <==> node.well_typed(),
            r matches Some(e) ==> e@ == node,
    {
        if node.check() {
            Some(Expr { node })
        } else {
            None
        }
    }

    /// A value bound as a parameter of the query.
    pub fn bind(value: Value) -> (e: Expr)
        ensures
            e@ == Node::Bind(value),
    {
        Expr { node: Node::Bind(value) }
    }

    /// A column of a table, with the type that the schema declares for it.
    pub fn column(table: String, name: String, sql_type: SqlType) -> (e: Expr)
        ensures
            e@ == (Node::Column { table, name, sql_type }),
    {
        Expr { node: Node::Column { table, name, sql_type } }
    }

    /// Takes a text expression as a pattern or as a text query. Any other
    /// expression, and any other target type, is refused.
    pub fn cast(self, target: SqlType) -> (r: Result<Expr, CompositionError>)
        ensures
            built(r) == cast_outcome(self@, target),
    {
        proof {
            use_type_invariant(&self);
        }
        let from = self.node.sql_type();
        if from == SqlType::Text && (target == SqlType::Lquery || target == SqlType::Ltxtquery) {
            Ok(Expr { node: Node::Cast { inner: Box::new(self.node), target } })
        } else {
            Err(CompositionError::Coercion { from, to: target })
        }
    }

    /// Applies `operator` to two operands, where `accepted` says whether the
    /// caller takes operands of their types.
    pub(crate) fn binary(operator: Operator, left: Expr, right: Expr, accepted: bool) -> (r: Result<
        Expr,
        CompositionError,
    >)
        requires
            accepted ==> operator.accepts(left@.sql_type_spec(), right@.sql_type_spec()),
        ensures
            built(r) == infix_outcome(operator, left@, right@, accepted),
    {
        proof {
            use_type_invariant(&left);
            use_type_invariant(&right);
        }
        if accepted {
            Ok(
                Expr {
                    node: Node::Infix {
                        operator,
                        left: Box::new(left.node),
                        right: Box::new(right.node),
                    },
                },
            )
        } else {
            Err(
                CompositionError::Operands {
                    operator,
                    left: left.node.sql_type(),
                    right: right.node.sql_type(),
                },
            )
        }
    }

    /// Applies `operator` to two operands, if it takes operands of their
    /// types.
    pub fn infix(operator: Operator, left: Expr, right: Expr) -> (r: Result<Expr, CompositionError>)
        ensures
            built(r) == infix_outcome(
                operator,
                left@,
                right@,
                operator.accepts(left@.sql_type_spec(), right@.sql_type_spec()),
            ),
    {
        let accepted = operator.takes(left.sql_type(), right.sql_type());
        Expr::binary(operator, left, right, accepted)
    }

    /// Applies `function` to `arguments`, if they are as many as its
    /// parameters and each has the type of the parameter at its position.
    /// Otherwise the error tells the count, or else the first argument that
    /// does not fit.
    pub fn call(function: Function, arguments: Vec<Expr>) -> (r: Result<Expr, CompositionError>)
        ensures
            applied(r, function, nodes_of(arguments@)),
    {
        let ghost nodes = nodes_of(arguments@);
        let ghost types = types_of(nodes);
        let count = arguments.len();
        if count != function.arity() {
            return Err(CompositionError::ArgumentCount { function, given: count });
        }
        let mut i: usize = 0;
        while i < count
            invariant
                i <= count,
                count == arguments@.len(),
                count == function.parameters().len(),
                nodes == nodes_of(arguments@),
                types == types_of(nodes),
                first_mismatch(function, types, 0) == first_mismatch(function, types, i as int),
                forall|k: int| 0 <= k < i ==> types[k] == function.parameters()[k],
            decreases count - i,
        {
            let found = arguments[i].sql_type();
            if Some(found) != function.parameter(i) {
                return Err(CompositionError::Argument { function, position: i, found });
            }
            i += 1;
        }
        assert(call_error(function, types) is None);
        let ghost given = arguments@;
        let mut ordered: Vec<Node> = Vec::new();
        for e in it: arguments
            invariant
                it.seq() == given,
                ordered@.len() == it.index(),
                forall|k: int|
                    0 <= k < ordered@.len() ==> {
                        &&& #[trigger] ordered@[k] == given[k]@
                        &&& ordered@[k].well_typed()
                    },
        {
            proof {
                use_type_invariant(&e);
            }
            ordered.push(e.node);
        }
        assert(ordered@ =~= nodes);
        assert forall|k: int| 0 <= k < ordered@.len() implies (#[trigger] ordered@[k]).sql_type_spec()
            == function.parameters()[k] by {
            assert(types[k] == nodes[k].sql_type_spec());
        }
        Ok(Expr { node: Node::Call { function, arguments: ordered } })
    }
}

} // verus!
