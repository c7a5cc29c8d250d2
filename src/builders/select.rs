//! SELECT statements.
use vstd::prelude::*;

use crate::clause_order::{apply_all, distinct_slots, lemma_order_free, slots_commute};
use crate::enums::{render_conjunction, ConditionView, IntoCondition};
use crate::render::{destructuring, SurrealVersion};
use crate::text::{join_strings, push_clause, push_decimal, texts};
use crate::traits::ToSelectField;
use crate::types::delete::{render_explain_clause, ExplainMode};
use crate::types::select::{
    fields_view, order_term_text, IntoTraversal, render_fields, select_text, FieldView, IntoOrderOptions,
    OrderTerm, SelectData, SelectField, SelectView,
};
use crate::versioning::select::{with_traversal, VersionedSelect};
use crate::versioning::{SurrealV1, SurrealV2};

verus! {

/// A SELECT statement before its target is known: projections can be added.
#[derive(Debug)]
pub struct SelectBuilder {
    pub data: SelectData,
    pub version: SurrealVersion,
}

/// A SELECT statement with its target: the remaining clauses can be set, and it
/// can be rendered.
#[derive(Debug)]
pub struct FromReady {
    data: SelectData,
}

impl View for FromReady {
    type V = SelectView;

    closed spec fn view(&self) -> SelectView {
        self.data@
    }
}

/// One configuration step after the target is set.
pub enum SelectOp {
    Where(ConditionView),
    OrderBy(Seq<char>),
    OrderRandom,
    Limit(u64),
    StartAt(u64),
    Fetch(Seq<Seq<char>>),
    Explain(ExplainMode),
}

/// The ordering term of random order.
pub open spec fn random_order_text() -> Seq<char> {
    "RAND()"@
}

/// Effect of a step: conditions, explicit order terms and fetched fields accumulate;
/// random order replaces the order terms so far; limit, offset and explain mode keep
/// the last value set.
pub open spec fn select_step(d: SelectView, op: SelectOp) -> SelectView {
    match op {
        SelectOp::Where(c) => SelectView { conditions: d.conditions.push(c), ..d },
        SelectOp::OrderBy(t) => SelectView { order: d.order.push(t), ..d },
        SelectOp::OrderRandom => SelectView { order: seq![random_order_text()], ..d },
        SelectOp::Limit(n) => SelectView { limit: Some(n), ..d },
        SelectOp::StartAt(n) => SelectView { start: Some(n), ..d },
        SelectOp::Fetch(fs) => SelectView { fetch: d.fetch + fs, ..d },
        SelectOp::Explain(m) => SelectView { explain: Some(m), ..d },
    }
}

/// The clause a step configures.
pub open spec fn select_slot(op: SelectOp) -> nat {
    match op {
        SelectOp::Where(_) => 0,
        SelectOp::OrderBy(_) => 1,
        SelectOp::OrderRandom => 1,
        SelectOp::Limit(_) => 2,
        SelectOp::StartAt(_) => 3,
        SelectOp::Fetch(_) => 4,
        SelectOp::Explain(_) => 5,
    }
}

/// Configuring distinct clauses of a SELECT in any order renders the same statement.
pub proof fn lemma_select_clause_order(d: SelectView, ops1: Seq<SelectOp>, ops2: Seq<SelectOp>)
    requires
        distinct_slots(|o: SelectOp| select_slot(o), ops1),
        ops1.to_multiset() == ops2.to_multiset(),
    ensures
        select_text(apply_all(|v: SelectView, o: SelectOp| select_step(v, o), d, ops1))
            == select_text(apply_all(|v: SelectView, o: SelectOp| select_step(v, o), d, ops2)),
{
    let step = |v: SelectView, o: SelectOp| select_step(v, o);
    let slot = |o: SelectOp| select_slot(o);
    assert(slots_commute(step, slot)) by {
        assert forall|v: SelectView, a: SelectOp, b: SelectOp| slot(a) != slot(b) implies #[trigger] step(
            step(v, a),
            b,
        ) == step(step(v, b), a) by {}
    }
    lemma_order_free(step, slot, d, ops1, ops2);
}

impl SelectBuilder {
    /// Adds the fields of a graph traversal to the projection, as the builder's
    /// dialect renders them.
    pub fn graph_traverse<P: IntoTraversal>(self, params: P) -> (r: SelectBuilder)
        ensures
            r.data@ == with_traversal(self.data@, params.traversal_view(), destructuring(self.version)),
            r.version == self.version,
    {
        let mut b = self;
        let params = params.into_traversal();
        match b.version {
            SurrealVersion::V1 => SurrealV1.graph_traverse(&mut b.data, params),
            SurrealVersion::V2 => SurrealV2.graph_traverse(&mut b.data, params),
        }
        b
    }

    /// Adds a sub-statement, in parentheses, to the projection.
    pub fn subquery(self, subquery: FromReady) -> (r: SelectBuilder)
        ensures
            r.data@ == (SelectView { fields: self.data@.fields.push(subquery.field_view()), ..self.data@ }),
            r.version == self.version,
    {
        let mut b = self;
        let ghost old_fields = b.data.fields@;
        let f = subquery.to_select_field();
        b.data.fields.push(f);
        assert(fields_view(b.data.fields@) =~= fields_view(old_fields).push(f@));
        b
    }

    /// Adds a sub-statement, in parentheses and under `alias`, to the projection.
    pub fn subquery_as(self, subquery: FromReady, alias: &str) -> (r: SelectBuilder)
        ensures
            r.data@ == (SelectView {
                fields: self.data@.fields.push((subquery, alias).field_view()),
                ..self.data@
            }),
            r.version == self.version,
    {
        let mut b = self;
        let ghost old_fields = b.data.fields@;
        let f = (subquery, alias).to_select_field();
        b.data.fields.push(f);
        assert(fields_view(b.data.fields@) =~= fields_view(old_fields).push(f@));
        b
    }

    /// Sets the target: `FROM table`.
    pub fn from(self, table: &str) -> (r: FromReady)
        ensures
            r@ == (SelectView { table: Some(table@), only: false, ..self.data@ }),
    {
        let mut b = self;
        b.data.table = Some(table.to_string());
        b.data.only = false;
        b.transition_to_ready()
    }

    /// Sets a single-record target: `FROM ONLY table`.
    pub fn from_only(self, table: &str) -> (r: FromReady)
        ensures
            r@ == (SelectView { table: Some(table@), only: true, ..self.data@ }),
    {
        let mut b = self;
        b.data.table = Some(table.to_string());
        b.data.only = true;
        b.transition_to_ready()
    }

    fn transition_to_ready(self) -> (r: FromReady)
        ensures
            r@ == self.data@,
    {
        FromReady { data: self.data }
    }
}

impl FromReady {
    /// Adds a condition; conditions are joined by `AND`.
    pub fn where_<T: IntoCondition>(self, condition: T) -> (r: FromReady)
        ensures
            r@ == select_step(self@, SelectOp::Where(condition.condition_view())),
    {
        let mut b = self;
        let ghost old_c = b.data.where_clause@;
        let c = condition.into_condition();
        b.data.where_clause.push(c);
        assert(b.data.where_clause@.drop_last() =~= old_c);
        b
    }

    /// Adds an ordering term after those already set.
    pub fn order_by<O: IntoOrderOptions>(self, field: &str, order: O) -> (r: FromReady)
        ensures
            r@ == select_step(self@, SelectOp::OrderBy(order_term_text(field@, order.order_options()))),
    {
        let mut b = self;
        let opt = order.into_order_options();
        let term = OrderTerm {
            field: field.to_string(),
            direction: opt.direction,
            numeric: opt.numeric,
            collate: opt.collate,
        };
        let ghost old_o = b.data.order_by@;
        let t = term.render();
        b.data.order_by.push(t);
        assert(texts(b.data.order_by@) =~= texts(old_o).push(t@));
        b
    }

    /// Orders at random: replaces the ordering terms set so far; terms added later
    /// come after it.
    pub fn order_random(self) -> (r: FromReady)
        ensures
            r@ == select_step(self@, SelectOp::OrderRandom),
    {
        let mut b = self;
        b.data.order_by = vec!["RAND()".to_string()];
        assert(texts(b.data.order_by@) =~= seq![random_order_text()]);
        b
    }

    /// Sets the limit; the last value set wins.
    pub fn limit(self, limit: u64) -> (r: FromReady)
        ensures
            r@ == select_step(self@, SelectOp::Limit(limit)),
    {
        let mut b = self;
        b.data.limit = Some(limit);
        b
    }

    /// Sets the offset; the last value set wins.
    pub fn start_at(self, offset: u64) -> (r: FromReady)
        ensures
            r@ == select_step(self@, SelectOp::StartAt(offset)),
    {
        let mut b = self;
        b.data.start_at = Some(offset);
        b
    }

    /// Adds fields to fetch after those already set.
    pub fn fetch(self, fields: Vec<&str>) -> (r: FromReady)
        ensures
            r@ == select_step(self@, SelectOp::Fetch(fields@.map_values(|s: &str| s@))),
    {
        let mut b = self;
        let mut i: usize = 0;
        let ghost old_f = texts(b.data.fetch_fields@);
        while i < fields.len()
            invariant
                i <= fields.len(),
                texts(b.data.fetch_fields@) == old_f + fields@.map_values(|s: &str| s@).take(i as int),
                b.data.fields == self.data.fields,
                b.data.table == self.data.table,
                b.data.limit == self.data.limit,
                b.data.only == self.data.only,
                b.data.where_clause == self.data.where_clause,
                b.data.order_by == self.data.order_by,
                b.data.start_at == self.data.start_at,
                b.data.explain == self.data.explain,
            decreases fields.len() - i,
        {
            let ghost before = b.data.fetch_fields@;
            let s = fields[i].to_string();
            b.data.fetch_fields.push(s);
            assert(texts(b.data.fetch_fields@) =~= texts(before).push(s@));
            assert(fields@.map_values(|s: &str| s@).take(i + 1) =~= fields@.map_values(
                |s: &str| s@,
            ).take(i as int).push(fields@[i as int]@));
            i += 1;
        }
        assert(fields@.map_values(|s: &str| s@).take(i as int) =~= fields@.map_values(|s: &str| s@));
        b
    }

    /// Sets the explain mode to `EXPLAIN`; the last mode set wins.
    pub fn explain(self) -> (r: FromReady)
        ensures
            r@ == select_step(self@, SelectOp::Explain(ExplainMode::Simple)),
    {
        let mut b = self;
        b.data.explain = Some(ExplainMode::Simple);
        b
    }

    /// Sets the explain mode to `EXPLAIN FULL`; the last mode set wins.
    pub fn explain_full(self) -> (r: FromReady)
        ensures
            r@ == select_step(self@, SelectOp::Explain(ExplainMode::Full)),
    {
        let mut b = self;
        b.data.explain = Some(ExplainMode::Full);
        b
    }

    /// Renders the statement.
    pub fn build(&self) -> (r: String)
        ensures
            r@ == select_text(self@),
    {
        let d = &self.data;
        let mut query = String::new();
        push_clause(&mut query, "SELECT");
        let fields = render_fields(&d.fields);
        push_clause(&mut query, fields.as_str());
        match &d.table {
            Some(t) => {
                let mut c = if d.only {
                    "FROM ONLY ".to_string()
                } else {
                    "FROM ".to_string()
                };
                c.append(t.as_str());
                push_clause(&mut query, c.as_str());
            },
            None => {},
        }
        if d.where_clause.len() > 0 {
            let mut c = "WHERE ".to_string();
            let t = render_conjunction(&d.where_clause);
            c.append(t.as_str());
            push_clause(&mut query, c.as_str());
        }
        if d.order_by.len() > 0 {
            let mut c = "ORDER BY ".to_string();
            let t = join_strings(&d.order_by, ", ");
            c.append(t.as_str());
            push_clause(&mut query, c.as_str());
        }
        match d.limit {
            Some(n) => {
                let mut c = "LIMIT ".to_string();
                push_decimal(&mut c, n as u128);
                push_clause(&mut query, c.as_str());
            },
            None => {},
        }
        match d.start_at {
            Some(n) => {
                let mut c = "START AT ".to_string();
                push_decimal(&mut c, n as u128);
                push_clause(&mut query, c.as_str());
            },
            None => {},
        }
        if d.fetch_fields.len() > 0 {
            let mut c = "FETCH ".to_string();
            let t = join_strings(&d.fetch_fields, ", ");
            c.append(t.as_str());
            push_clause(&mut query, c.as_str());
        }
        push_clause(&mut query, render_explain_clause(d.explain));
        query
    }
}

/// A sub-statement stands as a field: its text in parentheses.
impl ToSelectField for FromReady {
    open spec fn field_view(&self) -> FieldView {
        FieldView { name: "("@ + select_text(self@) + ")"@, alias: None }
    }

    fn to_select_field(self) -> (r: SelectField) {
        let mut name = "(".to_string();
        let t = self.build();
        name.append(t.as_str());
        name.append(")");
        SelectField { name, alias: None }
    }
}

/// A sub-statement under an alias.
impl<'a> ToSelectField for (FromReady, &'a str) {
    open spec fn field_view(&self) -> FieldView {
        FieldView { name: "("@ + select_text(self.0@) + ")"@, alias: Some(self.1@) }
    }

    fn to_select_field(self) -> (r: SelectField) {
        let mut name = "(".to_string();
        let t = self.0.build();
        name.append(t.as_str());
        name.append(")");
        SelectField { name, alias: Some(self.1.to_string()) }
    }
}

} // verus!
