use surrealex::builders::select::FromReady;
use surrealex::duration::{duration_to_string, parse_duration};
use surrealex::enums::{Condition, Direction, SelectionFields, Sort};
use surrealex::traits::ToSelectField;
use surrealex::types::delete::{ExplainMode, ReturnClause};
use surrealex::types::select::{GraphStep, GraphTraversalParams, OrderTerm, SelectData};
use surrealex::versioning::select::VersionedSelect;
use surrealex::{Duration, QueryBuilder, SurrealV1, SurrealV2};

fn ids() -> SelectionFields {
    SelectionFields::Fields(vec![ToSelectField::to_select_field("id")])
}

fn base() -> FromReady {
    QueryBuilder::select(ids()).from("users")
}

#[test]
fn select_clause_order_is_independent_of_call_order() {
    let a = base()
        .where_("age > 18")
        .order_by("name", Sort::Desc)
        .limit(10)
        .start_at(5)
        .fetch(vec!["profile"])
        .explain()
        .build();
    let b = base()
        .explain()
        .fetch(vec!["profile"])
        .start_at(5)
        .limit(10)
        .order_by("name", Sort::Desc)
        .where_("age > 18")
        .build();
    let c = base()
        .limit(10)
        .explain()
        .where_("age > 18")
        .fetch(vec!["profile"])
        .order_by("name", Sort::Desc)
        .start_at(5)
        .build();
    let expected =
        "SELECT id FROM users WHERE age > 18 ORDER BY name DESC LIMIT 10 START AT 5 FETCH profile EXPLAIN";
    assert_eq!(a, expected);
    assert_eq!(b, expected);
    assert_eq!(c, expected);
}

#[test]
fn delete_clause_order_is_independent_of_call_order() {
    let a = QueryBuilder::delete("users")
        .only()
        .where_("x = 1")
        .return_diff()
        .timeout("2s")
        .explain_full()
        .build();
    let b = QueryBuilder::delete("users")
        .explain_full()
        .timeout("2s")
        .return_diff()
        .where_("x = 1")
        .only()
        .build();
    assert_eq!(a, "DELETE ONLY users WHERE x = 1 RETURN DIFF TIMEOUT 2s EXPLAIN FULL");
    assert_eq!(a, b);
}

#[test]
fn insert_clause_order_is_independent_of_call_order() {
    let a = QueryBuilder::insert("person")
        .relation()
        .ignore()
        .content("{ a: 1 }")
        .on_duplicate_key_update("a", "2")
        .return_none()
        .build();
    let b = QueryBuilder::insert("person")
        .return_none()
        .on_duplicate_key_update("a", "2")
        .content("{ a: 1 }")
        .ignore()
        .relation()
        .build();
    assert_eq!(
        a,
        "INSERT RELATION IGNORE INTO person { a: 1 } ON DUPLICATE KEY UPDATE a = 2 RETURN NONE"
    );
    assert_eq!(a, b);
}

#[test]
fn create_clause_order_is_independent_of_call_order() {
    let a = QueryBuilder::create("person").only().set("a", "1").return_before().timeout("3s").build();
    let b = QueryBuilder::create("person").timeout("3s").return_before().set("a", "1").only().build();
    assert_eq!(a, "CREATE ONLY person SET a = 1 RETURN BEFORE TIMEOUT 3s");
    assert_eq!(a, b);
}

fn paren_depth(s: &str) -> usize {
    let mut level = 0usize;
    let mut best = 0usize;
    for ch in s.chars() {
        if ch == '(' {
            level += 1;
            if level > best {
                best = level;
            }
        } else if ch == ')' {
            level -= 1;
        }
    }
    best
}

#[test]
fn rendering_is_repeatable_and_parentheses_follow_tree_depth() {
    let leaf = Condition::new("a = 1");
    assert_eq!(paren_depth(&leaf.render()), 0);
    let tree = Condition::And(vec![
        Condition::Simple("a = 1".to_string()),
        Condition::Or(vec![
            Condition::Simple("b = 2".to_string()),
            Condition::And(vec![Condition::Simple("c = 3".to_string())]),
        ]),
    ]);
    let first = tree.render();
    let second = tree.render();
    assert_eq!(first, second);
    assert_eq!(first, "(a = 1 AND (b = 2 OR (c = 3)))");
    assert_eq!(paren_depth(&first), 3);
    let empty_group = Condition::Or(vec![]);
    assert_eq!(empty_group.render(), "()");
}

#[test]
fn and_flattens_while_or_nests() {
    let and = Condition::new("a").and("b").and("c");
    assert_eq!(and.render(), "(a AND b AND c)");
    let or = Condition::new("a").or("b").or("c");
    assert_eq!(or.render(), "((a OR b) OR c)");
    let mixed = Condition::new("a").or("b").and("c");
    assert_eq!(mixed.render(), "((a OR b) AND c)");
}

#[test]
fn scenario_nested_predicate() {
    let c = Condition::And(vec![
        Condition::Simple("a = 1".to_string()),
        Condition::Or(vec![Condition::Simple("b = 2".to_string()), Condition::Simple("c = 3".to_string())]),
    ]);
    assert_eq!(c.render(), "(a = 1 AND (b = 2 OR c = 3))");
}

#[test]
fn scenario_duration_literals() {
    assert_eq!(duration_to_string(Duration::from_secs(3661)), "1h1m1s");
    assert_eq!(duration_to_string(Duration::from_secs(0)), "0ns");
    assert_eq!(duration_to_string(Duration::from_millis(1500)), "1s500ms");
}

#[test]
fn scenario_order_term() {
    let t = OrderTerm { field: "score".to_string(), direction: Sort::Desc, numeric: true, collate: false };
    assert_eq!(t.render(), "score NUMERIC DESC");
    let both = OrderTerm { field: "a".to_string(), direction: Sort::Asc, numeric: true, collate: true };
    assert_eq!(both.render(), "a COLLATE NUMERIC ASC");
}

#[test]
fn scenario_first_dialect_traversal_splits_fields() {
    let mut data = SelectData::new(vec![]);
    let params = GraphTraversalParams::start_out("friends")
        .step_in("posts")
        .fields(SelectionFields::Fields(vec![
            ToSelectField::to_select_field("name"),
            ToSelectField::to_select_field("id"),
        ]));
    SurrealV1.graph_traverse(&mut data, params);
    assert_eq!(data.fields.len(), 2);
    assert_eq!(data.fields[0].name, "->friends<-posts.name");
    assert_eq!(data.fields[1].name, "->friends<-posts.id");
    assert_eq!(data.fields[0].alias, None);
}

#[test]
fn second_dialect_traversal_destructures() {
    let mut data = SelectData::new(vec![]);
    let params = GraphTraversalParams::start_out("friends")
        .step_in("posts")
        .fields(SelectionFields::Fields(vec![
            ToSelectField::to_select_field(("name", "n")),
            ToSelectField::to_select_field("id"),
        ]))
        .alias("fp");
    SurrealV2.graph_traverse(&mut data, params);
    assert_eq!(data.fields.len(), 1);
    assert_eq!(data.fields[0].name, "->friends<-posts.{name AS n, id}");
    assert_eq!(data.fields[0].alias, Some("fp".to_string()));
}

#[test]
fn scenario_singleton_and_accumulating_clauses() {
    let sql = QueryBuilder::delete("t").timeout("1s").timeout("9s").build();
    assert_eq!(sql, "DELETE FROM t TIMEOUT 9s");
    let sql = QueryBuilder::delete("t").where_("a = 1").where_("b = 2").build();
    assert_eq!(sql, "DELETE FROM t WHERE a = 1 AND b = 2");
}

#[test]
fn duration_round_trip() {
    let values = vec![
        Duration::zero(),
        Duration::from_nanos(1),
        Duration::from_micros(7),
        Duration::from_millis(250),
        Duration::from_secs(60),
        Duration::from_secs(3600),
        Duration::from_secs(86_400),
        Duration::from_secs(604_800),
        Duration::from_secs(365 * 86_400),
        Duration::from_secs(90),
        Duration::from_secs(3661),
        Duration::from_secs(365 * 86_400 + 2 * 604_800 + 3 * 86_400 + 4),
        Duration::from_nanos(1_001_001_001),
        Duration::from_secs(u64::MAX),
        Duration::from_total_nanos(u128::MAX),
    ];
    for d in values {
        let text = duration_to_string(d);
        assert_eq!(parse_duration(&text), Some(d), "{}", text);
    }
}

#[test]
fn duration_literal_has_no_zero_or_repeated_units() {
    let order = ["y", "w", "d", "h", "m", "s", "ms", "us", "ns"];
    for n in [1u64, 59, 61, 3_601, 90_061, 1_000_000_001, 31_536_000_000_000_001] {
        let text = duration_to_string(Duration::from_nanos(n));
        let mut last: Option<usize> = None;
        let mut rest: &str = &text;
        while !rest.is_empty() {
            let digits = rest.chars().take_while(|c| c.is_ascii_digit()).count();
            assert!(digits > 0, "{}", text);
            assert_ne!(&rest[..1], "0", "{}", text);
            let after = &rest[digits..];
            let unit = if after.starts_with("ms") || after.starts_with("us") || after.starts_with("ns") {
                &after[..2]
            } else {
                &after[..1]
            };
            let idx = order.iter().position(|u| *u == unit).unwrap();
            if let Some(prev) = last {
                assert!(idx > prev, "{}", text);
            }
            last = Some(idx);
            rest = &after[unit.len()..];
        }
    }
}

#[test]
fn parse_duration_reads_compound_literals() {
    assert_eq!(parse_duration("1h30m"), Some(Duration::from_secs(5400)));
    assert_eq!(parse_duration("30m1h"), Some(Duration::from_secs(5400)));
    assert_eq!(parse_duration("1m5s"), Some(Duration::from_secs(65)));
    assert_eq!(parse_duration("2ms3us4ns"), Some(Duration::from_nanos(2_003_004)));
    assert_eq!(parse_duration("0ns"), Some(Duration::zero()));
}

#[test]
fn parse_duration_rejects_malformed_text() {
    assert_eq!(parse_duration(""), None);
    assert_eq!(parse_duration("5"), None);
    assert_eq!(parse_duration("s"), None);
    assert_eq!(parse_duration("1x"), None);
    assert_eq!(parse_duration("1m5"), None);
    assert_eq!(parse_duration("1 s"), None);
}

#[test]
fn parse_duration_rejects_totals_beyond_u128() {
    assert_eq!(parse_duration("999999999999999999999999999999999999999999ns"), None);
    assert_eq!(parse_duration("99999999999999999999999999999y"), None);
    assert_eq!(parse_duration("340282366920938463463374607431768211455ns1ns"), None);
    assert_eq!(
        parse_duration("340282366920938463463374607431768211455ns"),
        Some(Duration::from_total_nanos(u128::MAX))
    );
}

#[test]
fn sanitize_field_strips_trailing_modifiers() {
    assert_eq!(OrderTerm::sanitize_field("name DESC"), "name");
    assert_eq!(OrderTerm::sanitize_field("score COLLATE NUMERIC DESC"), "score");
    assert_eq!(OrderTerm::sanitize_field("LOWER(name) DESC"), "LOWER(name)");
    assert_eq!(OrderTerm::sanitize_field("name asc  "), "name");
    assert_eq!(OrderTerm::sanitize_field("description"), "description");
    assert_eq!(OrderTerm::sanitize_field("DESC"), "DESC");
    assert_eq!(OrderTerm::sanitize_field("a\tcollate"), "a\tcollate");
    assert_eq!(OrderTerm::sanitize_field(""), "");
}

#[test]
fn clause_fragments_render() {
    assert_eq!(ReturnClause::Nothing.render(), "NONE");
    assert_eq!(ReturnClause::Params(vec!["a".to_string(), "b".to_string()]).render(), "a, b");
    assert_eq!(ReturnClause::Value("x".to_string()).render(), "VALUE x");
    assert_eq!(ExplainMode::Full.render(), "EXPLAIN FULL");
    assert_eq!(Sort::Asc.render(), "ASC");
    let step = GraphStep { direction: Direction::In, table: "posts".to_string() };
    assert_eq!(step.render(), "<-posts");
}

#[test]
fn insert_values_without_fields_and_fields_after_values() {
    let sql = QueryBuilder::insert("t").values(vec!["1", "2"]).build();
    assert_eq!(sql, "INSERT INTO t VALUES (1, 2)");
    let sql = QueryBuilder::insert("t").values(vec!["1"]).fields(vec!["a"]).build();
    assert_eq!(sql, "INSERT INTO t (a) VALUES (1)");
    let sql = QueryBuilder::insert("t").fields(vec!["a"]).content("{ a: 1 }").build();
    assert_eq!(sql, "INSERT INTO t { a: 1 }");
}

#[test]
fn random_order_replaces_earlier_terms_only() {
    let sql = base().order_by("a", Sort::Asc).order_random().order_by("b", Sort::Desc.collate()).build();
    assert_eq!(sql, "SELECT id FROM users ORDER BY RAND(), b COLLATE DESC");
}

#[test]
fn versioned_entry_points_render_like_the_default() {
    let sql = QueryBuilder::with_version(SurrealV1).delete("t").only().build();
    assert_eq!(sql, "DELETE ONLY t");
    let sql = QueryBuilder::with_version(SurrealV2).create("t").content("{}").build();
    assert_eq!(sql, "CREATE t CONTENT {}");
}

#[test]
fn selection_from_items_keeps_order_and_aliases() {
    let f = SelectionFields::from_items(vec![("a", "x"), ("b", "y")]);
    let sql = QueryBuilder::select(f).from("t").build();
    assert_eq!(sql, "SELECT a AS x, b AS y FROM t");
    let f = SelectionFields::from_items(vec!["a", "b"]);
    let sql = QueryBuilder::select(f).from_only("t:1").build();
    assert_eq!(sql, "SELECT a, b FROM ONLY t:1");
}

#[test]
fn order_options_from_unit_and_defaults() {
    let sql = base().order_by("name", ()).build();
    assert_eq!(sql, "SELECT id FROM users ORDER BY name ASC");
    let opts = surrealex::types::select::OrderOptions::default().numeric().collate();
    let sql = base().order_by("n", opts).build();
    assert_eq!(sql, "SELECT id FROM users ORDER BY n COLLATE NUMERIC ASC");
    assert_eq!(Sort::default(), Sort::Asc);
    assert_eq!(surrealex::SurrealVersion::default(), surrealex::SurrealVersion::V2);
}

#[test]
fn subquery_fields_are_parenthesised() {
    let sub = QueryBuilder::select(ids()).from("logs").limit(1);
    let sql = QueryBuilder::select(SelectionFields::All).subquery_as(sub, "last").from("t").build();
    assert_eq!(sql, "SELECT *, (SELECT id FROM logs LIMIT 1) AS last FROM t");
}
