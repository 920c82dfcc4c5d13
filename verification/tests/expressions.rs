use diesel_ltree::expression::{CompositionError, Expr, Function, Node, Operator, Value};
use diesel_ltree::render::{push_decimal, push_identifier, QuerySink};
use diesel_ltree::sql_types::SqlType;
use diesel_ltree::{
    index, lca, lquery, ltree2text, ltxtquery, nlevel, subltree, subpath, text2ltree,
    LqueryArrayExtensions, LqueryExtensions, Ltree, LtreeArrayExtensions, LtreeExtensions,
    LtxtqueryExtensions,
};

fn text(s: &str) -> Expr {
    Expr::bind(Value::Text(s.to_string()))
}

fn int4(n: i32) -> Expr {
    Expr::bind(Value::Int4(n))
}

fn path(s: &str) -> Expr {
    Expr::bind(Value::Ltree(Ltree(s.to_string())))
}

fn paths(items: &[&str]) -> Expr {
    Expr::bind(Value::LtreeArray(items.iter().map(|s| Ltree(s.to_string())).collect()))
}

fn patterns(items: &[&str]) -> Expr {
    Expr::bind(Value::LqueryArray(items.iter().map(|s| s.to_string()).collect()))
}

fn pattern(s: &str) -> Expr {
    Expr::bind(Value::Lquery(s.to_string()))
}

fn text_query(s: &str) -> Expr {
    Expr::bind(Value::Ltxtquery(s.to_string()))
}

fn t2l(s: &str) -> Expr {
    text2ltree(text(s)).unwrap()
}

fn lq(s: &str) -> Expr {
    lquery(text(s)).unwrap()
}

fn ltq(s: &str) -> Expr {
    ltxtquery(text(s)).unwrap()
}

fn path_column() -> Expr {
    Expr::column("my_tree".to_string(), "path".to_string(), SqlType::Ltree)
}

fn sql(e: &Expr) -> String {
    let mut sink = QuerySink::new();
    e.render(&mut sink);
    sink.sql
}

fn binds(e: &Expr) -> Vec<Value> {
    let mut sink = QuerySink::new();
    e.render(&mut sink);
    sink.binds.into_iter().cloned().collect()
}

fn texts(items: &[&str]) -> Vec<Value> {
    items.iter().map(|s| Value::Text(s.to_string())).collect()
}

fn operands(operator: Operator, left: SqlType, right: SqlType) -> CompositionError {
    CompositionError::Operands { operator, left, right }
}

#[test]
fn base_operations_without_converting_to_text_first() {
    let below = path_column().contained_by(t2l("root.eukaryota.plantae")).unwrap();
    assert_eq!(sql(&below), "(\"my_tree\".\"path\" <@ text2ltree($1))");
    assert_eq!(binds(&below), texts(&["root.eukaryota.plantae"]));
    assert_eq!(below.sql_type(), SqlType::Bool);

    let above = LtreeExtensions::contains(path_column(), t2l("root.bacteria")).unwrap();
    assert_eq!(sql(&above), "(\"my_tree\".\"path\" @> text2ltree($1))");
    assert_eq!(binds(&above), texts(&["root.bacteria"]));

    let selected = path_column();
    assert_eq!(sql(&selected), "\"my_tree\".\"path\"");
    assert_eq!(selected.sql_type(), SqlType::Ltree);
    assert_eq!(binds(&selected), vec![]);
}

#[test]
fn base_operations() {
    let selected = ltree2text(path_column()).unwrap();
    assert_eq!(sql(&selected), "ltree2text(\"my_tree\".\"path\")");
    assert_eq!(selected.sql_type(), SqlType::Text);

    let mut sink = QuerySink::new();
    let below = path_column().contained_by(t2l("root.eukaryota.plantae")).unwrap();
    let above = LtreeExtensions::contains(path_column(), t2l("root.bacteria")).unwrap();
    below.render(&mut sink);
    sink.emit_literal_text(" OR ");
    above.render(&mut sink);
    assert_eq!(
        sink.sql,
        "(\"my_tree\".\"path\" <@ text2ltree($1)) OR (\"my_tree\".\"path\" @> text2ltree($2))"
    );
    let bound: Vec<Value> = sink.binds.into_iter().cloned().collect();
    assert_eq!(bound, texts(&["root.eukaryota.plantae", "root.bacteria"]));
}

#[test]
fn functions() {
    let e = ltree2text(subltree(t2l("Top.Child1.Child2"), int4(1), int4(2)).unwrap()).unwrap();
    assert_eq!(sql(&e), "ltree2text(subltree(text2ltree($1), $2, $3))");
    assert_eq!(
        binds(&e),
        vec![Value::Text("Top.Child1.Child2".to_string()), Value::Int4(1), Value::Int4(2)]
    );
    assert_eq!(e.sql_type(), SqlType::Text);

    let e = ltree2text(subpath(t2l("Top.Child1.Child2"), int4(0), int4(2)).unwrap()).unwrap();
    assert_eq!(sql(&e), "ltree2text(subpath(text2ltree($1), $2, $3))");
    assert_eq!(
        binds(&e),
        vec![Value::Text("Top.Child1.Child2".to_string()), Value::Int4(0), Value::Int4(2)]
    );

    let e = nlevel(t2l("Top.Child1.Child2")).unwrap();
    assert_eq!(sql(&e), "nlevel(text2ltree($1))");
    assert_eq!(e.sql_type(), SqlType::Int4);

    let e = index(t2l("0.1.2.3.5.4.5.6.8.5.6.8"), t2l("5.6"), int4(0)).unwrap();
    assert_eq!(sql(&e), "index(text2ltree($1), text2ltree($2), $3)");
    assert_eq!(
        binds(&e),
        vec![
            Value::Text("0.1.2.3.5.4.5.6.8.5.6.8".to_string()),
            Value::Text("5.6".to_string()),
            Value::Int4(0)
        ]
    );
    assert_eq!(e.sql_type(), SqlType::Int4);

    let e = ltree2text(lca(paths(&["1.2.2.3", "1.2.3"])).unwrap()).unwrap();
    assert_eq!(sql(&e), "ltree2text(lca($1))");
    assert_eq!(
        binds(&e),
        vec![Value::LtreeArray(vec![Ltree("1.2.2.3".to_string()), Ltree("1.2.3".to_string())])]
    );
}

#[test]
fn operators() {
    let e = t2l("1.1").equals(t2l("1.2")).unwrap();
    assert_eq!(sql(&e), "(text2ltree($1) = text2ltree($2))");
    assert_eq!(binds(&e), texts(&["1.1", "1.2"]));
    assert_eq!(sql(&t2l("1.1").not_equals(t2l("1.1")).unwrap()), "(text2ltree($1) <> text2ltree($2))");
    assert_eq!(sql(&t2l("1").lt(t2l("1.1")).unwrap()), "(text2ltree($1) < text2ltree($2))");
    assert_eq!(sql(&t2l("1.2").gt(t2l("1.1")).unwrap()), "(text2ltree($1) > text2ltree($2))");
    assert_eq!(sql(&t2l("1.2").le(t2l("1.1")).unwrap()), "(text2ltree($1) <= text2ltree($2))");
    assert_eq!(sql(&t2l("1.2.1").ge(t2l("1.2")).unwrap()), "(text2ltree($1) >= text2ltree($2))");

    let e = LtreeExtensions::matches(t2l("foo_bar_baz"), lq("foo_bar%")).unwrap();
    assert_eq!(sql(&e), "(text2ltree($1) ~ lquery($2))");
    assert_eq!(binds(&e), texts(&["foo_bar_baz", "foo_bar%"]));
    let e = LtreeExtensions::matches(t2l("foo_barbaz"), lq("foo_bar%")).unwrap();
    assert_eq!(binds(&e), texts(&["foo_barbaz", "foo_bar%"]));
    let e = LqueryExtensions::matches(lq("foo_bar%*"), t2l("foo1_bar2_baz")).unwrap();
    assert_eq!(sql(&e), "(lquery($1) ~ text2ltree($2))");
    assert_eq!(binds(&e), texts(&["foo_bar%*", "foo1_bar2_baz"]));
    let e = LqueryExtensions::matches(lq("foo_bar%*"), t2l("foo1_br2_baz")).unwrap();
    assert_eq!(binds(&e), texts(&["foo_bar%*", "foo1_br2_baz"]));

    let e = LtreeExtensions::matches_any(t2l("foo_bar_baz"), patterns(&["foo_bar%", "foo_bat%"]))
        .unwrap();
    assert_eq!(sql(&e), "(text2ltree($1) ? $2)");
    assert_eq!(
        binds(&e),
        vec![
            Value::Text("foo_bar_baz".to_string()),
            Value::LqueryArray(vec!["foo_bar%".to_string(), "foo_bat%".to_string()])
        ]
    );
    let e = LqueryArrayExtensions::any_matches(patterns(&["foo_bat%"]), t2l("foo_bar_baz")).unwrap();
    assert_eq!(sql(&e), "($1 ? text2ltree($2))");

    let e = LtreeExtensions::tmatches(
        t2l("Russian.Hello.Europe"),
        ltq("Europe & Russia*@ & !Transportation"),
    )
    .unwrap();
    assert_eq!(sql(&e), "(text2ltree($1) @ ltxtquery($2))");
    assert_eq!(
        binds(&e),
        texts(&["Russian.Hello.Europe", "Europe & Russia*@ & !Transportation"])
    );
    let e = LtxtqueryExtensions::tmatches(
        ltq("Europe & Russia*@ & !Transportation"),
        t2l("Europe.russia.Transportation"),
    )
    .unwrap();
    assert_eq!(sql(&e), "(ltxtquery($1) @ text2ltree($2))");
    let e = LtxtqueryExtensions::tmatches(
        ltq("Europe & Russia*@ & !Transportation"),
        t2l("russians.today.Europe"),
    )
    .unwrap();
    assert_eq!(
        binds(&e),
        texts(&["Europe & Russia*@ & !Transportation", "russians.today.Europe"])
    );

    let e = ltree2text(t2l("a.b").concat(t2l("c.d")).unwrap()).unwrap();
    assert_eq!(sql(&e), "ltree2text((text2ltree($1) || text2ltree($2)))");
    assert_eq!(binds(&e), texts(&["a.b", "c.d"]));

    let e = t2l("a.b").contained_by_any(paths(&["a", "a.b.c"])).unwrap();
    assert_eq!(sql(&e), "(text2ltree($1) <@ $2)");
    let e = paths(&["a", "a.b.c"]).any_contains(t2l("a.b")).unwrap();
    assert_eq!(sql(&e), "($1 @> text2ltree($2))");
    let e = t2l("a.b").contains_any(paths(&["a", "a.b.c"])).unwrap();
    assert_eq!(sql(&e), "(text2ltree($1) @> $2)");
    let e = paths(&["a", "a.b.c"]).any_contained_by(t2l("a.b")).unwrap();
    assert_eq!(sql(&e), "($1 <@ text2ltree($2))");

    let e = LtreeArrayExtensions::any_matches(paths(&["a", "a.b"]), lq("a%")).unwrap();
    assert_eq!(sql(&e), "($1 ~ lquery($2))");
    let e = LqueryExtensions::matches_any(lq("a%"), paths(&["a", "a.b"])).unwrap();
    assert_eq!(sql(&e), "(lquery($1) ~ $2)");

    let e = LtreeArrayExtensions::any_matches_any(paths(&["a", "a.b"]), patterns(&["a%", "b%"]))
        .unwrap();
    assert_eq!(sql(&e), "($1 ? $2)");
    let e = LqueryArrayExtensions::any_matches_any(patterns(&["a%", "b%"]), paths(&["a", "a.b"]))
        .unwrap();
    assert_eq!(sql(&e), "($1 ? $2)");

    let e = paths(&["a", "a.b"]).any_tmatches(ltq("a")).unwrap();
    assert_eq!(sql(&e), "($1 @ ltxtquery($2))");
    let e = ltq("a").tmatches_any(paths(&["a", "a.b"])).unwrap();
    assert_eq!(sql(&e), "(ltxtquery($1) @ $2)");

    let e = paths(&["a.b.c", "a"]).first_contains(t2l("a.b")).unwrap();
    assert_eq!(sql(&e), "($1 ?@> text2ltree($2))");
    let e = paths(&["a", "a.b.c"]).first_contained_by(t2l("a.b")).unwrap();
    assert_eq!(sql(&e), "($1 ?<@ text2ltree($2))");
    let e = paths(&["a.b.c", "a"]).first_matches(lq("a%")).unwrap();
    assert_eq!(sql(&e), "($1 ?~ lquery($2))");
    let e = paths(&["a", "a.b.c"]).first_tmatches(ltq("a & b")).unwrap();
    assert_eq!(sql(&e), "($1 ?@ ltxtquery($2))");
    assert_eq!(
        binds(&e),
        vec![
            Value::LtreeArray(vec![Ltree("a".to_string()), Ltree("a.b.c".to_string())]),
            Value::Text("a & b".to_string())
        ]
    );
}

#[test]
fn contains_renders_in_one_pair_of_parentheses() {
    let e = LtreeExtensions::contains(path("root.eukaryota.plantae"), path("root")).unwrap();
    assert_eq!(sql(&e), "($1 @> $2)");
    assert_eq!(
        binds(&e),
        vec![
            Value::Ltree(Ltree("root.eukaryota.plantae".to_string())),
            Value::Ltree(Ltree("root".to_string()))
        ]
    );
    assert_eq!(e.sql_type(), SqlType::Bool);
}

#[test]
fn subpath_renders_a_call() {
    let e = subpath(path("Top.Child1.Child2"), int4(1), int4(2)).unwrap();
    assert_eq!(sql(&e), "subpath($1, $2, $3)");
    assert_eq!(
        binds(&e),
        vec![Value::Ltree(Ltree("Top.Child1.Child2".to_string())), Value::Int4(1), Value::Int4(2)]
    );
    assert_eq!(e.sql_type(), SqlType::Ltree);
}

#[test]
fn subltree_is_not_subpath() {
    let a = subltree(path("Top.Child1.Child2"), int4(1), int4(2)).unwrap();
    let b = subpath(path("Top.Child1.Child2"), int4(1), int4(2)).unwrap();
    assert_eq!(sql(&a), "subltree($1, $2, $3)");
    assert_eq!(sql(&b), "subpath($1, $2, $3)");
    assert_ne!(a, b);
}

#[test]
fn index_hands_a_negative_offset_on() {
    let e = index(path("a.b.c"), path("c"), int4(-1)).unwrap();
    assert_eq!(sql(&e), "index($1, $2, $3)");
    assert_eq!(binds(&e)[2], Value::Int4(-1));
}

#[test]
fn concat_gives_a_path() {
    let e = path("a.b").concat(path("c.d")).unwrap();
    assert_eq!(sql(&e), "($1 || $2)");
    assert_eq!(e.sql_type(), SqlType::Ltree);
    let nested = e.concat(path("e")).unwrap();
    assert_eq!(sql(&nested), "(($1 || $2) || $3)");
}

#[test]
fn first_operators_give_a_truth_value() {
    let e = paths(&["a.b.c", "a"]).first_contains(path("a.b")).unwrap();
    assert_eq!(e.sql_type(), SqlType::Bool);
    assert_eq!(
        ltree2text(e),
        Err(CompositionError::Argument {
            function: Function::Ltree2text,
            position: 0,
            found: SqlType::Bool
        })
    );
}

#[test]
fn lca_takes_an_array_of_paths() {
    let e = lca(paths(&["1.2.2.3", "1.2.3"])).unwrap();
    assert_eq!(sql(&e), "lca($1)");
    assert_eq!(e.sql_type(), SqlType::Ltree);
    assert_eq!(
        lca(path("1.2")),
        Err(CompositionError::Argument { function: Function::Lca, position: 0, found: SqlType::Ltree })
    );
}

#[test]
fn matches_takes_a_pattern_and_refuses_a_path() {
    let e = LtreeExtensions::matches(path("foo_bar_baz"), lq("foo_bar%")).unwrap();
    assert_eq!(sql(&e), "($1 ~ lquery($2))");
    assert_eq!(
        LtreeExtensions::matches(path("foo_bar_baz"), path("foo_bar")),
        Err(operands(Operator::Matches, SqlType::Ltree, SqlType::Ltree))
    );
}

#[test]
fn matches_takes_an_array_of_patterns() {
    let e = LtreeExtensions::matches(path("a"), patterns(&["a%", "b%"])).unwrap();
    assert_eq!(sql(&e), "($1 ~ $2)");
    let e = LtreeExtensions::contains(path("a"), paths(&["a.b"])).unwrap();
    assert_eq!(sql(&e), "($1 @> $2)");
    let e = LtreeExtensions::contained_by(path("a"), paths(&["a.b"])).unwrap();
    assert_eq!(sql(&e), "($1 <@ $2)");
}

#[test]
fn operators_refuse_operands_of_other_types() {
    assert_eq!(
        LtreeExtensions::tmatches(path("a"), pattern("a")),
        Err(operands(Operator::TMatches, SqlType::Ltree, SqlType::Lquery))
    );
    assert_eq!(
        LtreeExtensions::contains(pattern("a"), path("a")),
        Err(operands(Operator::Contains, SqlType::Lquery, SqlType::Ltree))
    );
    assert_eq!(
        path("a").contains_any(path("a")),
        Err(operands(Operator::Contains, SqlType::Ltree, SqlType::Ltree))
    );
    assert_eq!(
        LtreeExtensions::matches_any(path("a"), pattern("a")),
        Err(operands(Operator::MatchesAny, SqlType::Ltree, SqlType::Lquery))
    );
    assert_eq!(
        path("a").concat(text("b")),
        Err(operands(Operator::Concat, SqlType::Ltree, SqlType::Text))
    );
    assert_eq!(
        path("a").first_contains(path("a")),
        Err(operands(Operator::FirstContains, SqlType::Ltree, SqlType::Ltree))
    );
    assert_eq!(
        paths(&["a"]).any_contains(paths(&["a"])),
        Err(operands(Operator::Contains, SqlType::LtreeArray, SqlType::LtreeArray))
    );
    assert_eq!(
        LqueryExtensions::matches(path("a"), path("a")),
        Err(operands(Operator::Matches, SqlType::Ltree, SqlType::Ltree))
    );
    assert_eq!(
        LqueryArrayExtensions::any_matches(pattern("a"), path("a")),
        Err(operands(Operator::MatchesAny, SqlType::Lquery, SqlType::Ltree))
    );
    assert_eq!(
        LtxtqueryExtensions::tmatches(text_query("a"), text_query("a")),
        Err(operands(Operator::TMatches, SqlType::Ltxtquery, SqlType::Ltxtquery))
    );
    assert_eq!(
        path("a").equals(int4(1)),
        Err(operands(Operator::Eq, SqlType::Ltree, SqlType::Int4))
    );
    assert_eq!(
        path("a").equals(path("b")).unwrap().equals(path("c")),
        Err(operands(Operator::Eq, SqlType::Bool, SqlType::Ltree))
    );
}

#[test]
fn infix_follows_the_table() {
    let e = Expr::infix(Operator::Contains, paths(&["a"]), path("a")).unwrap();
    assert_eq!(sql(&e), "($1 @> $2)");
    assert_eq!(
        Expr::infix(Operator::Lt, paths(&["a"]), path("a")),
        Err(operands(Operator::Lt, SqlType::LtreeArray, SqlType::Ltree))
    );
    assert!(Operator::Matches.takes(SqlType::Lquery, SqlType::LtreeArray));
    assert!(!Operator::MatchesAny.takes(SqlType::Ltree, SqlType::Lquery));
    assert!(!Operator::TMatches.takes(SqlType::Ltree, SqlType::LtxtqueryArray));
    assert_eq!(Operator::Concat.result_type(), SqlType::Ltree);
    assert_eq!(Operator::FirstMatches.result_type(), SqlType::Bool);
    assert_eq!(Operator::FirstTMatches.token(), " ?@ ");
}

#[test]
fn functions_refuse_arguments_of_other_types() {
    assert_eq!(
        text2ltree(path("a")),
        Err(CompositionError::Argument {
            function: Function::Text2ltree,
            position: 0,
            found: SqlType::Ltree
        })
    );
    assert_eq!(
        subpath(path("a"), text("1"), text("2")),
        Err(CompositionError::Argument {
            function: Function::Subpath,
            position: 1,
            found: SqlType::Text
        })
    );
    assert_eq!(
        index(path("a"), path("b"), path("c")),
        Err(CompositionError::Argument {
            function: Function::Index,
            position: 2,
            found: SqlType::Ltree
        })
    );
    assert_eq!(
        nlevel(text("a")),
        Err(CompositionError::Argument {
            function: Function::Nlevel,
            position: 0,
            found: SqlType::Text
        })
    );
}

#[test]
fn call_counts_the_arguments() {
    assert_eq!(
        Expr::call(Function::Nlevel, vec![path("a"), path("b")]),
        Err(CompositionError::ArgumentCount { function: Function::Nlevel, given: 2 })
    );
    assert_eq!(
        Expr::call(Function::Subpath, vec![]),
        Err(CompositionError::ArgumentCount { function: Function::Subpath, given: 0 })
    );
    let e = Expr::call(Function::Subpath, vec![path("a.b.c"), int4(0), int4(1)]).unwrap();
    assert_eq!(sql(&e), "subpath($1, $2, $3)");
    assert_eq!(
        binds(&e),
        vec![Value::Ltree(Ltree("a.b.c".to_string())), Value::Int4(0), Value::Int4(1)]
    );
    assert_eq!(Function::Index.arity(), 3);
    assert_eq!(Function::Index.parameter(1), Some(SqlType::Ltree));
    assert_eq!(Function::Index.parameter(2), Some(SqlType::Int4));
    assert_eq!(Function::Index.parameter(3), None);
    assert_eq!(Function::Lca.parameter(0), Some(SqlType::LtreeArray));
    assert_eq!(Function::Lca.parameter(1), None);
    assert_eq!(Function::Lca.return_type(), SqlType::Ltree);
    assert_eq!(Function::Ltxtquery.name(), "ltxtquery");
}

#[test]
fn cast_takes_text_as_a_pattern() {
    let e = text("foo_bar%").cast(SqlType::Lquery).unwrap();
    assert_eq!(sql(&e), "($1)::lquery");
    assert_eq!(e.sql_type(), SqlType::Lquery);
    let m = LtreeExtensions::matches(path("foo_bar_baz"), e).unwrap();
    assert_eq!(sql(&m), "($1 ~ ($2)::lquery)");
    let q = text("a & b").cast(SqlType::Ltxtquery).unwrap();
    assert_eq!(sql(&q), "($1)::ltxtquery");
    assert_eq!(q.sql_type(), SqlType::Ltxtquery);
}

#[test]
fn cast_refuses_other_sources_and_targets() {
    assert_eq!(
        path("a").cast(SqlType::Lquery),
        Err(CompositionError::Coercion { from: SqlType::Ltree, to: SqlType::Lquery })
    );
    assert_eq!(
        text("a").cast(SqlType::Ltree),
        Err(CompositionError::Coercion { from: SqlType::Text, to: SqlType::Ltree })
    );
    assert_eq!(
        text("a").cast(SqlType::LqueryArray),
        Err(CompositionError::Coercion { from: SqlType::Text, to: SqlType::LqueryArray })
    );
}

#[test]
fn placeholders_count_on_from_what_is_bound() {
    let mut e = path("p0");
    for i in 1..12 {
        e = e.concat(path(&format!("p{}", i))).unwrap();
    }
    let text = sql(&e);
    assert!(text.ends_with("$9) || $10) || $11) || $12)"));
    assert!(text.starts_with("((((((((((($1 || $2)"));
    assert_eq!(binds(&e).len(), 12);
    assert_eq!(binds(&e)[9], Value::Ltree(Ltree("p9".to_string())));
}

#[test]
fn rendering_twice_gives_the_same() {
    let e = LtreeExtensions::contains(
        path_column(),
        subpath(t2l("a.b.c"), int4(0), int4(2)).unwrap(),
    )
    .unwrap();
    let mut first = QuerySink::new();
    let mut second = QuerySink::new();
    e.render(&mut first);
    e.render(&mut second);
    assert_eq!(first.sql, second.sql);
    assert_eq!(first.binds, second.binds);
    assert_eq!(first.sql, "(\"my_tree\".\"path\" @> subpath(text2ltree($1), $2, $3))");
}

#[test]
fn sink_numbers_parameters_from_one() {
    let a = Value::Int4(7);
    let b = Value::Text("x".to_string());
    let mut sink = QuerySink::new();
    assert_eq!(sink.emit_parameter(&a), "$1");
    assert_eq!(sink.emit_parameter(&b), "$2");
    assert_eq!(sink.sql, "");
    sink.emit_literal_text("SELECT ");
    sink.emit_literal_text("1");
    assert_eq!(sink.sql, "SELECT 1");
    assert_eq!(sink.binds, vec![&a, &b]);
}

#[test]
fn decimal_numerals() {
    let mut text = String::from("n=");
    push_decimal(&mut text, 0);
    assert_eq!(text, "n=0");
    let mut text = String::new();
    push_decimal(&mut text, 10);
    push_decimal(&mut text, 9);
    push_decimal(&mut text, 12345678);
    assert_eq!(text, "10912345678");
    let mut text = String::new();
    push_decimal(&mut text, usize::MAX);
    assert_eq!(text, usize::MAX.to_string());
}

#[test]
fn identifiers_are_quoted() {
    let mut text = String::new();
    push_identifier(&mut text, "path");
    assert_eq!(text, "\"path\"");
    let mut text = String::from("x.");
    push_identifier(&mut text, "a\"b");
    assert_eq!(text, "x.\"a\"\"b\"");
    let mut text = String::new();
    push_identifier(&mut text, "");
    assert_eq!(text, "\"\"");
    let e = Expr::column("t\u{e4}".to_string(), "\"".to_string(), SqlType::Lquery);
    assert_eq!(sql(&e), "\"t\u{e4}\".\"\"\"\"");
    assert_eq!(e.sql_type(), SqlType::Lquery);
}

#[test]
fn from_node_takes_only_well_typed_trees() {
    let good = Node::Infix {
        operator: Operator::Contains,
        left: Box::new(Node::Bind(Value::Ltree(Ltree("a".to_string())))),
        right: Box::new(Node::Call {
            function: Function::Text2ltree,
            arguments: vec![Node::Bind(Value::Text("a.b".to_string()))],
        }),
    };
    assert!(good.check());
    let e = Expr::from_node(good).unwrap();
    assert_eq!(sql(&e), "($1 @> text2ltree($2))");
    assert_eq!(e, LtreeExtensions::contains(path("a"), t2l("a.b")).unwrap());

    let bad = Node::Infix {
        operator: Operator::Matches,
        left: Box::new(Node::Bind(Value::Ltree(Ltree("a".to_string())))),
        right: Box::new(Node::Bind(Value::Ltree(Ltree("b".to_string())))),
    };
    assert!(!bad.check());
    assert_eq!(Expr::from_node(bad), None);

    let deep = Node::Call {
        function: Function::Nlevel,
        arguments: vec![Node::Cast {
            inner: Box::new(Node::Bind(Value::Int4(1))),
            target: SqlType::Lquery,
        }],
    };
    assert_eq!(Expr::from_node(deep), None);
    let short = Node::Call { function: Function::Subpath, arguments: vec![] };
    assert_eq!(Expr::from_node(short), None);
}

#[test]
fn node_of_an_expression() {
    let e = nlevel(path("a.b")).unwrap();
    assert_eq!(
        *e.node(),
        Node::Call {
            function: Function::Nlevel,
            arguments: vec![Node::Bind(Value::Ltree(Ltree("a.b".to_string())))],
        }
    );
    assert_eq!(e.node().sql_type(), SqlType::Int4);
    assert_eq!(Value::LtxtqueryArray(vec![]).sql_type(), SqlType::LtxtqueryArray);
    assert_eq!(SqlType::LtreeArray.name(), "ltree[]");
}
