//! Rendering of an expression tree into query text with numbered parameter
//! placeholders, and the sink that collects both.

use crate::expression::{Expr, Node, Value};
use vstd::prelude::*;
use vstd::string::*;

verus! {

/// The character of a decimal digit.
pub open spec fn digit(d: nat) -> char {
    if d == 0 {
        '0'
    } else if d == 1 {
        '1'
    } else if d == 2 {
        '2'
    } else if d == 3 {
        '3'
    } else if d == 4 {
        '4'
    } else if d == 5 {
        '5'
    } else if d == 6 {
        '6'
    } else if d == 7 {
        '7'
    } else if d == 8 {
        '8'
    } else {
        '9'
    }
}

/// The decimal numeral of `n`, without leading zeros.
pub open spec fn decimal(n: nat) -> Seq<char>
    decreases n,
{
    if n < 10 {
        seq![digit(n)]
    } else {
        decimal(n / 10).push(digit(n % 10))
    }
}

/// The placeholder of the parameter with the given number, counted from one.
pub open spec fn placeholder(number: nat) -> Seq<char> {
    seq!['$'] + decimal(number)
}

/// An identifier with each double quote in it doubled.
pub open spec fn escaped(identifier: Seq<char>) -> Seq<char>
    decreases identifier.len(),
{
    if identifier.len() == 0 {
        Seq::empty()
    } else if identifier.last() == '"' {
        escaped(identifier.drop_last()) + seq!['"', '"']
    } else {
        escaped(identifier.drop_last()).push(identifier.last())
    }
}

/// An identifier between double quotes, with the quotes in it doubled.
pub open spec fn quoted(identifier: Seq<char>) -> Seq<char> {
    seq!['"'] + escaped(identifier) + seq!['"']
}

/// The values that the trees of a sequence bind, in order.
pub open spec fn arguments_binds(arguments: Seq<Node>) -> Seq<Value>
    decreases arguments,
{
    if arguments.len() == 0 {
        Seq::empty()
    } else {
        arguments_binds(arguments.drop_last()) + arguments.last().binds()
    }
}

/// The text of the trees of a sequence, separated by a comma and a space,
/// after `bound` parameters.
pub open spec fn arguments_sql(arguments: Seq<Node>, bound: nat) -> Seq<char>
    decreases arguments,
{
    if arguments.len() == 0 {
        Seq::empty()
    } else if arguments.len() == 1 {
        arguments[0].sql(bound)
    } else {
        arguments_sql(arguments.drop_last(), bound) + ", "@ + arguments.last().sql(
            bound + arguments_binds(arguments.drop_last()).len(),
        )
    }
}

impl Node {
    /// The values that the tree binds as parameters, from left to right.
    pub open spec fn binds(self) -> Seq<Value>
        decreases self,
    {
        match self {
            Node::Bind(value) => seq![value],
            Node::Column { .. } => Seq::empty(),
            Node::Cast { inner, .. } => inner.binds(),
            Node::Infix { left, right, .. } => left.binds() + right.binds(),
            Node::Call { arguments, .. } => arguments_binds(arguments@),
        }
    }

    /// The text of the tree where `bound` parameters stand before it: a
    /// bound value is its placeholder, a column its quoted name after that
    /// of its table, a coercion its inner text in parentheses before `::`
    /// and the type's name, an operator stands between its operands in one
    /// pair of parentheses, and a function's name before its arguments.
    pub open spec fn sql(self, bound: nat) -> Seq<char>
        decreases self,
    {
        match self {
            Node::Bind(_) => placeholder(bound + 1),
            Node::Column { table, name, .. } => quoted(table@) + "."@ + quoted(name@),
            Node::Cast { inner, target } => "("@ + inner.sql(bound) + ")::"@ + target.name_spec(),
            Node::Infix { operator, left, right } => "("@ + left.sql(bound) + operator.token_spec()
                + right.sql(bound + left.binds().len()) + ")"@,
            Node::Call { function, arguments } => function.name_spec() + "("@ + arguments_sql(
                arguments@,
                bound,
            ) + ")"@,
        }
    }
}

/// `String::push`, which appends one character to the text.
#[verifier::external_body]
fn push_char(text: &mut String, c: char)
    ensures
        final(text)@ == old(text)@.push(c),
{
    text.push(c)
}

/// Appends the decimal numeral of `n` to `text`.
pub fn push_decimal(text: &mut String, n: usize)
    ensures
        final(text)@ == old(text)@ + decimal(n as nat),
    decreases n,
{
    if n >= 10 {
        push_decimal(text, n / 10);
    }
    let d = n % 10;
    let c = if d == 0 {
        '0'
    } else if d == 1 {
        '1'
    } else if d == 2 {
        '2'
    } else if d == 3 {
        '3'
    } else if d == 4 {
        '4'
    } else if d == 5 {
        '5'
    } else if d == 6 {
        '6'
    } else if d == 7 {
        '7'
    } else if d == 8 {
        '8'
    } else {
        '9'
    };
    let ghost before = text@;
    push_char(text, c);
    assert(text@ =~= old(text)@ + decimal(n as nat)) by {
        if n >= 10 {
            assert(before == old(text)@ + decimal((n / 10) as nat));
        }
    }
}

/// Appends `identifier` to `text` between double quotes, with each double
/// quote in it doubled.
pub fn push_identifier(text: &mut String, identifier: &str)
    ensures
        final(text)@ == old(text)@ + quoted(identifier@),
{
    push_char(text, '"');
    for c in it: identifier.chars()
        invariant
            it.seq() == identifier@,
            text@ == old(text)@ + seq!['"'] + escaped(identifier@.take(it.index() as int)),
    {
        let ghost i = it.index();
        if c == '"' {
            push_char(text, '"');
        }
        push_char(text, c);
        proof {
            let next = identifier@.take(i + 1);
            assert(next.drop_last() =~= identifier@.take(i as int));
            assert(next.last() == c);
            assert(text@ =~= old(text)@ + seq!['"'] + escaped(next));
        }
    }
    assert(identifier@.take(identifier@.len() as int) =~= identifier@);
    push_char(text, '"');
    assert(text@ =~= old(text)@ + quoted(identifier@));
}

/// What a query is rendered into: the text so far, and the values bound so
/// far, in the order of their placeholders.
#[derive(Debug)]
pub struct QuerySink<'a> {
    pub sql: String,
    pub binds: Vec<&'a Value>,
}

/// What rendering `node` changes: the tree's text comes after the text so
/// far, numbered after the parameters bound so far, and its values after
/// those.
pub open spec fn rendered(before: QuerySink, node: Node, after: QuerySink) -> bool {
    &&& after.sql@ == before.sql@ + node.sql(before.binds@.len())
    &&& after.values() == before.values() + node.binds()
}

impl<'a> QuerySink<'a> {
    /// The values bound so far.
    pub open spec fn values(self) -> Seq<Value> {
        self.binds@.map_values(|v: &Value| *v)
    }

    /// A sink with no text and no bound value.
    pub fn new() -> (sink: QuerySink<'a>)
        ensures
            sink.sql@ == Seq::<char>::empty(),
            sink.binds@ == Seq::<&Value>::empty(),
    {
        QuerySink { sql: String::new(), binds: Vec::new() }
    }

    /// Appends `text` as it is.
    pub fn emit_literal_text(&mut self, text: &str)
        ensures
            final(self).sql@ == old(self).sql@ + text@,
            final(self).binds == old(self).binds,
    {
        self.sql.append(text);
    }

    /// Registers `value` as the next parameter and returns its placeholder,
    /// which is numbered by the count of the values bound, this one
    /// included. The text is left as it is.
    pub fn emit_parameter(&mut self, value: &'a Value) -> (token: String)
        ensures
            final(self).sql == old(self).sql,
            final(self).binds@ == old(self).binds@.push(value),
            token@ == placeholder(old(self).binds@.len() + 1),
    {
        self.binds.push(value);
        let mut token = String::new();
        push_char(&mut token, '$');
        push_decimal(&mut token, self.binds.len());
        assert(token@ =~= placeholder(old(self).binds@.len() + 1));
        token
    }
}

impl Node {
    /// Renders the tree into `out`.
    pub(crate) fn render<'a>(&'a self, out: &mut QuerySink<'a>)
        ensures
            rendered(*old(out), *self, *final(out)),
        decreases self,
    {
        match self {
            Node::Bind(value) => {
                let token = out.emit_parameter(value);
                out.emit_literal_text(token.as_str());
                assert(out.values() =~= old(out).values() + self.binds());
            },
            Node::Column { table, name, .. } => {
                push_identifier(&mut out.sql, table.as_str());
                out.emit_literal_text(".");
                push_identifier(&mut out.sql, name.as_str());
                assert(out.sql@ =~= old(out).sql@ + self.sql(old(out).binds@.len()));
                assert(out.values() =~= old(out).values() + self.binds());
            },
            Node::Cast { inner, target } => {
                out.emit_literal_text("(");
                let ghost opened = *out;
                inner.render(out);
                out.emit_literal_text(")::");
                out.emit_literal_text(target.name());
                assert(out.sql@ =~= old(out).sql@ + self.sql(old(out).binds@.len()));
            },
            Node::Infix { operator, left, right } => {
                out.emit_literal_text("(");
                left.render(out);
                let ghost middle = *out;
                assert(middle.binds@.len() == middle.values().len());
                assert(old(out).binds@.len() == old(out).values().len());
                out.emit_literal_text(operator.token());
                right.render(out);
                out.emit_literal_text(")");
                assert(out.sql@ =~= old(out).sql@ + self.sql(old(out).binds@.len()));
                assert(out.values() =~= old(out).values() + self.binds());
            },
            Node::Call { function, arguments } => {
                out.emit_literal_text(function.name());
                out.emit_literal_text("(");
                let mut i: usize = 0;
                while i < arguments.len()
                    invariant
                        i <= arguments@.len(),
                        *self is Call,
                        (*self)->arguments == *arguments,
                        out.sql@ == old(out).sql@ + function.name_spec() + "("@ + arguments_sql(
                            arguments@.take(i as int),
                            old(out).binds@.len(),
                        ),
                        out.values() == old(out).values() + arguments_binds(
                            arguments@.take(i as int),
                        ),
                    decreases arguments@.len() - i,
                {
                    if i > 0 {
                        out.emit_literal_text(", ");
                    }
                    proof {
                        vstd::std_specs::vec::axiom_vec_index_decreases(*arguments, i as int);
                        assert(decreases_to!(*self => (*self)->arguments));
                    }
                    let ghost before = *out;
                    assert(before.binds@.len() == before.values().len());
                    assert(old(out).binds@.len() == old(out).values().len());
                    arguments[i].render(out);
                    proof {
                        let next = arguments@.take(i + 1);
                        assert(next.drop_last() =~= arguments@.take(i as int));
                        assert(next.last() == arguments@[i as int]);
                        assert(out.values() =~= old(out).values() + arguments_binds(next));
                        assert(out.sql@ =~= old(out).sql@ + function.name_spec() + "("@
                            + arguments_sql(next, old(out).binds@.len()));
                    }
                    i += 1;
                }
                assert(arguments@.take(i as int) =~= arguments@);
                out.emit_literal_text(")");
                assert(out.sql@ =~= old(out).sql@ + self.sql(old(out).binds@.len()));
            },
        }
    }
}

impl Expr {
    /// Renders the expression into `out`: its text after the text so far,
    /// its values after the values bound so far.
    pub fn render<'a>(&'a self, out: &mut QuerySink<'a>)
        ensures
            rendered(*old(out), self@, *final(out)),
    {
        self.node().render(out)
    }
}

/// Whether two trees differ at most in the values that they bind.
pub open spec fn same_shape(a: Node, b: Node) -> bool
    decreases a,
{
    match a {
        Node::Bind(_) => b is Bind,
        Node::Column { table, name, .. } => {
            &&& b is Column
            &&& b->table@ == table@
            &&& b->name@ == name@
        },
        Node::Cast { inner, target } => {
            &&& b is Cast
            &&& b->target == target
            &&& same_shape(*inner, *b->inner)
        },
        Node::Infix { operator, left, right } => {
            &&& b is Infix
            &&& b->operator == operator
            &&& same_shape(*left, *b->left)
            &&& same_shape(*right, *b->right)
        },
        Node::Call { function, arguments } => {
            &&& b is Call
            &&& b->function == function
            &&& b->arguments@.len() == arguments@.len()
            &&& forall|i: int|
                0 <= i < arguments@.len() ==> same_shape(
                    #[trigger] arguments@[i],
                    b->arguments@[i],
                )
        },
    }
}

/// No bound value reaches the text: two trees that differ at most in the
/// values that they bind are rendered into the same text, and bind equally
/// many values.
pub proof fn lemma_text_is_free_of_values(a: Node, b: Node, bound: nat)
    requires
        same_shape(a, b),
    ensures
        a.sql(bound) == b.sql(bound),
        a.binds().len() == b.binds().len(),
    decreases a, 1nat,
{
    match a {
        Node::Bind(_) => {},
        Node::Column { .. } => {},
        Node::Cast { inner, .. } => {
            lemma_text_is_free_of_values(*inner, *b->inner, bound);
        },
        Node::Infix { left, right, .. } => {
            lemma_text_is_free_of_values(*left, *b->left, bound);
            lemma_text_is_free_of_values(*right, *b->right, bound + left.binds().len());
        },
        Node::Call { arguments, .. } => {
            lemma_arguments_text_is_free_of_values(
                a,
                arguments@,
                b->arguments@,
                bound,
                arguments@.len() as int,
            );
            assert(arguments@.take(arguments@.len() as int) =~= arguments@);
            assert(b->arguments@.take(arguments@.len() as int) =~= b->arguments@);
        },
    }
}

/// The same of the first `count` arguments of the call `parent`.
proof fn lemma_arguments_text_is_free_of_values(
    parent: Node,
    a: Seq<Node>,
    b: Seq<Node>,
    bound: nat,
    count: int,
)
    requires
        parent is Call,
        parent->arguments@ == a,
        0 <= count <= a.len(),
        a.len() == b.len(),
        forall|i: int| 0 <= i < a.len() ==> same_shape(#[trigger] a[i], b[i]),
    ensures
        arguments_sql(a.take(count), bound) == arguments_sql(b.take(count), bound),
        arguments_binds(a.take(count)).len() == arguments_binds(b.take(count)).len(),
    decreases parent, 0nat, count,
{
    if count > 0 {
        let a_now = a.take(count);
        let b_now = b.take(count);
        assert(a_now.drop_last() =~= a.take(count - 1));
        assert(b_now.drop_last() =~= b.take(count - 1));
        assert(a_now.last() == a[count - 1]);
        assert(b_now.last() == b[count - 1]);
        lemma_arguments_text_is_free_of_values(parent, a, b, bound, count - 1);
        let before = arguments_binds(a.take(count - 1)).len();
        assert(decreases_to!(parent => parent->arguments));
        vstd::std_specs::vec::axiom_vec_index_decreases(parent->arguments, count - 1);
        lemma_text_is_free_of_values(a[count - 1], b[count - 1], bound);
        lemma_text_is_free_of_values(a[count - 1], b[count - 1], bound + before);
    }
}

/// Rendering is determined by the tree and by what the sink held before:
/// two sinks that held the same text and the same values hold the same text
/// and the same values, in the same order, after the same tree is rendered
/// into each.
pub proof fn lemma_rendering_is_deterministic(
    node: Node,
    first_before: QuerySink,
    first_after: QuerySink,
    second_before: QuerySink,
    second_after: QuerySink,
)
    requires
        rendered(first_before, node, first_after),
        rendered(second_before, node, second_after),
        first_before.sql@ == second_before.sql@,
        first_before.values() == second_before.values(),
    ensures
        first_after.sql@ == second_after.sql@,
        first_after.values() == second_after.values(),
{
    assert(first_before.binds@.len() == first_before.values().len());
    assert(second_before.binds@.len() == second_before.values().len());
}

} // verus!
