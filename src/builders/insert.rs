//! INSERT statements.
use vstd::prelude::*;

use crate::clause_order::{apply_all, distinct_slots, lemma_order_free, slots_commute};
use crate::text::{
    collect_texts, glue, join, join_strings, lemma_assemble_joins_present, lemma_assemble_take,
    present, push_clause, texts, IntoText,
};
use crate::types::create::{
    assignments_text, assignments_view, render_assignments, SetField,
};
use crate::types::delete::{render_return_clause, return_clause_text, ReturnClause, ReturnView};
use crate::types::insert::{
    content_head_text, content_rows_text, render_rows, rows_view, InsertContent,
    InsertContentView, InsertData, InsertView,
};

verus! {

/// Builds an INSERT statement.
#[derive(Debug)]
pub struct InsertBuilder {
    pub data: InsertData,
}

/// One configuration step of an INSERT statement.
pub enum InsertOp {
    Relation,
    Ignore,
    Content(Seq<char>),
    Fields(Seq<Seq<char>>),
    Values(Seq<Seq<char>>),
    OnDuplicate(Seq<char>, Seq<char>),
    Return(ReturnView),
}

/// Effect of a step: `RELATION`, `IGNORE` and the return mode keep the last value
/// set; a raw value replaces any data; fields replace the field list of a
/// fields/values form (or start one, discarding a raw value); a row is added to a
/// fields/values form (or starts one with no fields); `ON DUPLICATE KEY UPDATE`
/// assignments accumulate.
pub open spec fn insert_step(d: InsertView, op: InsertOp) -> InsertView {
    match op {
        InsertOp::Relation => InsertView { relation: true, ..d },
        InsertOp::Ignore => InsertView { ignore: true, ..d },
        InsertOp::Content(v) => InsertView { content: Some(InsertContentView::Value(v)), ..d },
        InsertOp::Fields(fs) => InsertView {
            content: Some(
                match d.content {
                    Some(InsertContentView::FieldsValues(_, rows)) => InsertContentView::FieldsValues(
                        fs,
                        rows,
                    ),
                    _ => InsertContentView::FieldsValues(fs, seq![]),
                },
            ),
            ..d
        },
        InsertOp::Values(row) => InsertView {
            content: Some(
                match d.content {
                    Some(InsertContentView::FieldsValues(fs, rows)) => InsertContentView::FieldsValues(
                        fs,
                        rows.push(row),
                    ),
                    _ => InsertContentView::FieldsValues(seq![], seq![row]),
                },
            ),
            ..d
        },
        InsertOp::OnDuplicate(f, v) => InsertView { on_duplicate: d.on_duplicate.push((f, v)), ..d },
        InsertOp::Return(r) => InsertView { return_clause: Some(r), ..d },
    }
}

/// The clause a step configures.
pub open spec fn insert_slot(op: InsertOp) -> nat {
    match op {
        InsertOp::Relation => 0,
        InsertOp::Ignore => 1,
        InsertOp::Content(_) => 2,
        InsertOp::Fields(_) => 2,
        InsertOp::Values(_) => 2,
        InsertOp::OnDuplicate(_, _) => 3,
        InsertOp::Return(_) => 4,
    }
}

/// The statement keyword and target: `INSERT [RELATION] [IGNORE] INTO target`.
pub open spec fn insert_head_text(d: InsertView) -> Seq<char> {
    (if d.relation && d.ignore {
        "INSERT RELATION IGNORE INTO "@
    } else if d.relation {
        "INSERT RELATION INTO "@
    } else if d.ignore {
        "INSERT IGNORE INTO "@
    } else {
        "INSERT INTO "@
    }) + d.target
}

/// The `ON DUPLICATE KEY UPDATE ...` clause, empty without assignments.
pub open spec fn on_duplicate_text(a: Seq<(Seq<char>, Seq<char>)>) -> Seq<char> {
    if a.len() == 0 {
        seq![]
    } else {
        "ON DUPLICATE KEY UPDATE "@ + assignments_text(a)
    }
}

/// Text of an INSERT statement: keyword and target, data, duplicate-key update, return.
pub open spec fn insert_text(d: InsertView) -> Seq<char> {
    glue(
        glue(
            glue(
                glue(insert_head_text(d), content_head_text(d.content)),
                content_rows_text(d.content),
            ),
            on_duplicate_text(d.on_duplicate),
        ),
        return_clause_text(d.return_clause),
    )
}

/// The clauses of an INSERT statement, in grammar order; an absent clause is empty.
pub open spec fn insert_clauses(d: InsertView) -> Seq<Seq<char>> {
    seq![
        insert_head_text(d),
        content_head_text(d.content),
        content_rows_text(d.content),
        on_duplicate_text(d.on_duplicate),
        return_clause_text(d.return_clause),
    ]
}

/// An INSERT renders as its present clauses in grammar order, one space between each two.
pub proof fn lemma_insert_layout(d: InsertView)
    ensures
        insert_text(d) == join(present(insert_clauses(d)), " "@),
{
    let c = insert_clauses(d);
    assert(c.take(0) =~= Seq::<Seq<char>>::empty());
    lemma_assemble_take(c, 0);
    lemma_assemble_take(c, 1);
    lemma_assemble_take(c, 2);
    lemma_assemble_take(c, 3);
    lemma_assemble_take(c, 4);
    assert(c.take(5) =~= c);
    lemma_assemble_joins_present(c);
}

/// Configuring distinct clauses of an INSERT in any order renders the same statement.
pub proof fn lemma_insert_clause_order(d: InsertView, ops1: Seq<InsertOp>, ops2: Seq<InsertOp>)
    requires
        distinct_slots(|o: InsertOp| insert_slot(o), ops1),
        ops1.to_multiset() == ops2.to_multiset(),
    ensures
        insert_text(apply_all(|v: InsertView, o: InsertOp| insert_step(v, o), d, ops1))
            == insert_text(apply_all(|v: InsertView, o: InsertOp| insert_step(v, o), d, ops2)),
{
    let step = |v: InsertView, o: InsertOp| insert_step(v, o);
    let slot = |o: InsertOp| insert_slot(o);
    assert(slots_commute(step, slot)) by {
        assert forall|v: InsertView, a: InsertOp, b: InsertOp| slot(a) != slot(b) implies #[trigger] step(
            step(v, a),
            b,
        ) == step(step(v, b), a) by {}
    }
    lemma_order_free(step, slot, d, ops1, ops2);
}

impl InsertBuilder {
    /// A statement inserting into `target`, with no other clause.
    pub fn new(target: &str) -> (r: InsertBuilder)
        ensures
            r.data@ == (InsertView {
                target: target@,
                relation: false,
                ignore: false,
                content: None,
                on_duplicate: seq![],
                return_clause: None,
            }),
    {
        let r = InsertBuilder {
            data: InsertData {
                target: target.to_string(),
                relation: false,
                ignore: false,
                content: None,
                on_duplicate_key_update: Vec::new(),
                return_clause: None,
            },
        };
        assert(r.data@.on_duplicate =~= Seq::<(Seq<char>, Seq<char>)>::empty());
        r
    }

    /// Switches to `INSERT RELATION`.
    pub fn relation(self) -> (r: InsertBuilder)
        ensures
            r.data@ == insert_step(self.data@, InsertOp::Relation),
    {
        let mut b = self;
        b.data.relation = true;
        b
    }

    /// Adds `IGNORE` after `INSERT [RELATION]`.
    pub fn ignore(self) -> (r: InsertBuilder)
        ensures
            r.data@ == insert_step(self.data@, InsertOp::Ignore),
    {
        let mut b = self;
        b.data.ignore = true;
        b
    }

    /// Provides the data as a raw value, replacing any data given before.
    pub fn content(self, value: &str) -> (r: InsertBuilder)
        ensures
            r.data@ == insert_step(self.data@, InsertOp::Content(value@)),
    {
        let mut b = self;
        b.data.content = Some(InsertContent::Value(value.to_string()));
        b
    }

    /// Sets the field list of the `(fields) VALUES (...)` form, keeping rows already
    /// given in that form and discarding a raw value.
    pub fn fields<S: IntoText>(self, fields: Vec<S>) -> (r: InsertBuilder)
        ensures
            r.data@ == insert_step(
                self.data@,
                InsertOp::Fields(fields@.map_values(|s: S| s.text())),
            ),
    {
        let mut b = self;
        let fs = collect_texts(fields);
        let content = match b.data.content {
            Some(InsertContent::FieldsValues { fields: _, values }) => InsertContent::FieldsValues {
                fields: fs,
                values,
            },
            _ => {
                let values: Vec<Vec<String>> = Vec::new();
                assert(rows_view(values@) =~= Seq::<Seq<Seq<char>>>::empty());
                InsertContent::FieldsValues { fields: fs, values }
            },
        };
        b.data.content = Some(content);
        b
    }

    /// Adds a row of values to the `(fields) VALUES (...)` form; starts that form with
    /// no fields when the data was given otherwise or not at all.
    pub fn values<S: IntoText>(self, row: Vec<S>) -> (r: InsertBuilder)
        ensures
            r.data@ == insert_step(self.data@, InsertOp::Values(row@.map_values(|s: S| s.text()))),
    {
        let mut b = self;
        let rv = collect_texts(row);
        let content = match b.data.content {
            Some(InsertContent::FieldsValues { fields, mut values }) => {
                let ghost old_rows = values@;
                values.push(rv);
                assert(rows_view(values@) =~= rows_view(old_rows).push(texts(rv@)));
                InsertContent::FieldsValues { fields, values }
            },
            _ => {
                let fields: Vec<String> = Vec::new();
                let values = vec![rv];
                assert(texts(fields@) =~= Seq::<Seq<char>>::empty());
                assert(rows_view(values@) =~= seq![texts(rv@)]);
                InsertContent::FieldsValues { fields, values }
            },
        };
        b.data.content = Some(content);
        b
    }

    /// Adds a `field = value` assignment to `ON DUPLICATE KEY UPDATE`.
    pub fn on_duplicate_key_update(self, field: &str, value: &str) -> (r: InsertBuilder)
        ensures
            r.data@ == insert_step(self.data@, InsertOp::OnDuplicate(field@, value@)),
    {
        let mut b = self;
        let ghost old_a = b.data.on_duplicate_key_update@;
        b.data.on_duplicate_key_update.push(
            SetField { field: field.to_string(), value: value.to_string() },
        );
        assert(assignments_view(b.data.on_duplicate_key_update@) =~= assignments_view(old_a).push(
            (field@, value@),
        ));
        b
    }

    /// Sets `RETURN NONE`; the last return mode set wins.
    pub fn return_none(self) -> (r: InsertBuilder)
        ensures
            r.data@ == insert_step(self.data@, InsertOp::Return(ReturnView::Nothing)),
    {
        let mut b = self;
        b.data.return_clause = Some(ReturnClause::Nothing);
        b
    }

    /// Sets `RETURN BEFORE`; the last return mode set wins.
    pub fn return_before(self) -> (r: InsertBuilder)
        ensures
            r.data@ == insert_step(self.data@, InsertOp::Return(ReturnView::Before)),
    {
        let mut b = self;
        b.data.return_clause = Some(ReturnClause::Before);
        b
    }

    /// Sets `RETURN AFTER`; the last return mode set wins.
    pub fn return_after(self) -> (r: InsertBuilder)
        ensures
            r.data@ == insert_step(self.data@, InsertOp::Return(ReturnView::After)),
    {
        let mut b = self;
        b.data.return_clause = Some(ReturnClause::After);
        b
    }

    /// Sets `RETURN DIFF`; the last return mode set wins.
    pub fn return_diff(self) -> (r: InsertBuilder)
        ensures
            r.data@ == insert_step(self.data@, InsertOp::Return(ReturnView::Diff)),
    {
        let mut b = self;
        b.data.return_clause = Some(ReturnClause::Diff);
        b
    }

    /// Sets `RETURN a, b, ...`; the last return mode set wins.
    pub fn return_params<S: IntoText>(self, params: Vec<S>) -> (r: InsertBuilder)
        ensures
            r.data@ == insert_step(
                self.data@,
                InsertOp::Return(ReturnView::Params(params@.map_values(|s: S| s.text()))),
            ),
    {
        let mut b = self;
        b.data.return_clause = Some(ReturnClause::Params(collect_texts(params)));
        b
    }

    /// Sets `RETURN VALUE field`; the last return mode set wins.
    pub fn return_value(self, field: &str) -> (r: InsertBuilder)
        ensures
            r.data@ == insert_step(self.data@, InsertOp::Return(ReturnView::Value(field@))),
    {
        let mut b = self;
        b.data.return_clause = Some(ReturnClause::Value(field.to_string()));
        b
    }

    /// Renders the statement.
    pub fn build(&self) -> (r: String)
        ensures
            r@ == insert_text(self.data@),
    {
        let d = &self.data;
        let mut query = String::new();
        let mut head = if d.relation && d.ignore {
            "INSERT RELATION IGNORE INTO ".to_string()
        } else if d.relation {
            "INSERT RELATION INTO ".to_string()
        } else if d.ignore {
            "INSERT IGNORE INTO ".to_string()
        } else {
            "INSERT INTO ".to_string()
        };
        head.append(d.target.as_str());
        push_clause(&mut query, head.as_str());
        match &d.content {
            Some(InsertContent::Value(v)) => {
                push_clause(&mut query, v.as_str());
            },
            Some(InsertContent::FieldsValues { fields, values }) => {
                if fields.len() > 0 {
                    let mut c = "(".to_string();
                    let t = join_strings(fields, ", ");
                    c.append(t.as_str());
                    c.append(")");
                    push_clause(&mut query, c.as_str());
                }
                if values.len() > 0 {
                    let mut c = "VALUES ".to_string();
                    let t = render_rows(values);
                    c.append(t.as_str());
                    push_clause(&mut query, c.as_str());
                }
            },
            None => {},
        }
        if d.on_duplicate_key_update.len() > 0 {
            let mut c = "ON DUPLICATE KEY UPDATE ".to_string();
            let t = render_assignments(&d.on_duplicate_key_update);
            c.append(t.as_str());
            push_clause(&mut query, c.as_str());
        }
        let rc = render_return_clause(&d.return_clause);
        push_clause(&mut query, rc.as_str());
        query
    }
}

} // verus!
