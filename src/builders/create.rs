//! CREATE statements.
use vstd::prelude::*;

use crate::clause_order::{apply_all, distinct_slots, lemma_order_free, slots_commute};
use crate::text::{
    collect_texts, glue, join, lemma_assemble_joins_present, lemma_assemble_take, present,
    push_clause, IntoText,
};
use crate::traits::IntoTimeout;
use crate::types::create::{
    assignments_view, content_clause_text, render_assignments, ContentMode, ContentView,
    CreateData, CreateView, SetField,
};
use crate::types::delete::{
    render_return_clause, render_timeout_clause, return_clause_text, timeout_clause_text,
    ReturnClause, ReturnView,
};

verus! {

/// Builds a CREATE statement.
#[derive(Debug)]
pub struct CreateBuilder {
    pub data: CreateData,
}

/// One configuration step of a CREATE statement.
pub enum CreateOp {
    Only,
    Content(Seq<char>),
    Assign(Seq<char>, Seq<char>),
    Return(ReturnView),
    Timeout(Seq<char>),
}

/// Effect of a step: `ONLY`, the return mode and the timeout keep the last value
/// set; `CONTENT` replaces any data-setting mode; `SET` adds an assignment to an
/// assignment list, or replaces a `CONTENT` with a list of one.
pub open spec fn create_step(d: CreateView, op: CreateOp) -> CreateView {
    match op {
        CreateOp::Only => CreateView { only: true, ..d },
        CreateOp::Content(v) => CreateView { content: Some(ContentView::Content(v)), ..d },
        CreateOp::Assign(f, v) => CreateView {
            content: Some(
                match d.content {
                    Some(ContentView::Assignments(fs)) => ContentView::Assignments(fs.push((f, v))),
                    _ => ContentView::Assignments(seq![(f, v)]),
                },
            ),
            ..d
        },
        CreateOp::Return(r) => CreateView { return_clause: Some(r), ..d },
        CreateOp::Timeout(t) => CreateView { timeout: Some(t), ..d },
    }
}

/// The clause a step configures.
pub open spec fn create_slot(op: CreateOp) -> nat {
    match op {
        CreateOp::Only => 0,
        CreateOp::Content(_) => 1,
        CreateOp::Assign(_, _) => 1,
        CreateOp::Return(_) => 2,
        CreateOp::Timeout(_) => 3,
    }
}

/// Text of a CREATE statement: `CREATE [ONLY] target`, data, return, timeout.
pub open spec fn create_text(d: CreateView) -> Seq<char> {
    glue(
        glue(
            glue(
                if d.only {
                    "CREATE ONLY "@ + d.targets
                } else {
                    "CREATE "@ + d.targets
                },
                content_clause_text(d.content),
            ),
            return_clause_text(d.return_clause),
        ),
        timeout_clause_text(d.timeout),
    )
}

/// The clauses of a CREATE statement, in grammar order; an absent clause is empty.
pub open spec fn create_clauses(d: CreateView) -> Seq<Seq<char>> {
    seq![
        if d.only {
            "CREATE ONLY "@ + d.targets
        } else {
            "CREATE "@ + d.targets
        },
        content_clause_text(d.content),
        return_clause_text(d.return_clause),
        timeout_clause_text(d.timeout),
    ]
}

/// A CREATE renders as its present clauses in grammar order, one space between each two.
pub proof fn lemma_create_layout(d: CreateView)
    ensures
        create_text(d) == join(present(create_clauses(d)), " "@),
{
    let c = create_clauses(d);
    assert(c.take(0) =~= Seq::<Seq<char>>::empty());
    lemma_assemble_take(c, 0);
    lemma_assemble_take(c, 1);
    lemma_assemble_take(c, 2);
    lemma_assemble_take(c, 3);
    assert(c.take(4) =~= c);
    lemma_assemble_joins_present(c);
}

/// Configuring distinct clauses of a CREATE in any order renders the same statement.
pub proof fn lemma_create_clause_order(d: CreateView, ops1: Seq<CreateOp>, ops2: Seq<CreateOp>)
    requires
        distinct_slots(|o: CreateOp| create_slot(o), ops1),
        ops1.to_multiset() == ops2.to_multiset(),
    ensures
        create_text(apply_all(|v: CreateView, o: CreateOp| create_step(v, o), d, ops1))
            == create_text(apply_all(|v: CreateView, o: CreateOp| create_step(v, o), d, ops2)),
{
    let step = |v: CreateView, o: CreateOp| create_step(v, o);
    let slot = |o: CreateOp| create_slot(o);
    assert(slots_commute(step, slot)) by {
        assert forall|v: CreateView, a: CreateOp, b: CreateOp| slot(a) != slot(b) implies #[trigger] step(
            step(v, a),
            b,
        ) == step(step(v, b), a) by {}
    }
    lemma_order_free(step, slot, d, ops1, ops2);
}

impl CreateBuilder {
    /// A statement creating `targets`, with no other clause.
    pub fn new(targets: &str) -> (r: CreateBuilder)
        ensures
            r.data@ == (CreateView {
                targets: targets@,
                only: false,
                content: None,
                return_clause: None,
                timeout: None,
            }),
    {
        CreateBuilder {
            data: CreateData {
                targets: targets.to_string(),
                only: false,
                content: None,
                return_clause: None,
                timeout: None,
            },
        }
    }

    /// Switches to `CREATE ONLY`. A single-result return mode is expected with it; that
    /// is left to the server to check.
    pub fn only(self) -> (r: CreateBuilder)
        ensures
            r.data@ == create_step(self.data@, CreateOp::Only),
    {
        let mut b = self;
        b.data.only = true;
        b
    }

    /// Sets `CONTENT value`, replacing any earlier `CONTENT` or `SET`.
    pub fn content(self, value: &str) -> (r: CreateBuilder)
        ensures
            r.data@ == create_step(self.data@, CreateOp::Content(value@)),
    {
        let mut b = self;
        b.data.content = Some(ContentMode::Content(value.to_string()));
        b
    }

    /// Adds a `SET field = value` assignment; replaces an earlier `CONTENT`.
    pub fn set(self, field: &str, value: &str) -> (r: CreateBuilder)
        ensures
            r.data@ == create_step(self.data@, CreateOp::Assign(field@, value@)),
    {
        let mut b = self;
        let a = SetField { field: field.to_string(), value: value.to_string() };
        let content = match b.data.content {
            Some(ContentMode::Assignments(mut fs)) => {
                let ghost old_fs = fs@;
                fs.push(a);
                assert(assignments_view(fs@) =~= assignments_view(old_fs).push((field@, value@)));
                ContentMode::Assignments(fs)
            },
            _ => {
                let fs = vec![a];
                assert(assignments_view(fs@) =~= seq![(field@, value@)]);
                ContentMode::Assignments(fs)
            },
        };
        b.data.content = Some(content);
        b
    }

    /// Sets `RETURN NONE`; the last return mode set wins.
    pub fn return_none(self) -> (r: CreateBuilder)
        ensures
            r.data@ == create_step(self.data@, CreateOp::Return(ReturnView::Nothing)),
    {
        let mut b = self;
        b.data.return_clause = Some(ReturnClause::Nothing);
        b
    }

    /// Sets `RETURN BEFORE`; the last return mode set wins.
    pub fn return_before(self) -> (r: CreateBuilder)
        ensures
            r.data@ == create_step(self.data@, CreateOp::Return(ReturnView::Before)),
    {
        let mut b = self;
        b.data.return_clause = Some(ReturnClause::Before);
        b
    }

    /// Sets `RETURN AFTER`; the last return mode set wins.
    pub fn return_after(self) -> (r: CreateBuilder)
        ensures
            r.data@ == create_step(self.data@, CreateOp::Return(ReturnView::After)),
    {
        let mut b = self;
        b.data.return_clause = Some(ReturnClause::After);
        b
    }

    /// Sets `RETURN DIFF`; the last return mode set wins.
    pub fn return_diff(self) -> (r: CreateBuilder)
        ensures
            r.data@ == create_step(self.data@, CreateOp::Return(ReturnView::Diff)),
    {
        let mut b = self;
        b.data.return_clause = Some(ReturnClause::Diff);
        b
    }

    /// Sets `RETURN a, b, ...`; the last return mode set wins.
    pub fn return_params<S: IntoText>(self, params: Vec<S>) -> (r: CreateBuilder)
        ensures
            r.data@ == create_step(
                self.data@,
                CreateOp::Return(ReturnView::Params(params@.map_values(|s: S| s.text()))),
            ),
    {
        let mut b = self;
        b.data.return_clause = Some(ReturnClause::Params(collect_texts(params)));
        b
    }

    /// Sets `RETURN VALUE field`; the last return mode set wins.
    pub fn return_value(self, field: &str) -> (r: CreateBuilder)
        ensures
            r.data@ == create_step(self.data@, CreateOp::Return(ReturnView::Value(field@))),
    {
        let mut b = self;
        b.data.return_clause = Some(ReturnClause::Value(field.to_string()));
        b
    }

    /// Sets `TIMEOUT duration`; the last value set wins.
    pub fn timeout<T: IntoTimeout>(self, duration: T) -> (r: CreateBuilder)
        ensures
            r.data@ == create_step(self.data@, CreateOp::Timeout(duration.timeout_text())),
    {
        let mut b = self;
        b.data.timeout = Some(duration.into_timeout());
        b
    }

    /// Renders the statement.
    pub fn build(&self) -> (r: String)
        ensures
            r@ == create_text(self.data@),
    {
        let d = &self.data;
        let mut query = String::new();
        let mut head = if d.only {
            "CREATE ONLY ".to_string()
        } else {
            "CREATE ".to_string()
        };
        head.append(d.targets.as_str());
        push_clause(&mut query, head.as_str());
        match &d.content {
            Some(ContentMode::Content(v)) => {
                let mut c = "CONTENT ".to_string();
                c.append(v.as_str());
                push_clause(&mut query, c.as_str());
            },
            Some(ContentMode::Assignments(fs)) => {
                let mut c = "SET ".to_string();
                let t = render_assignments(fs);
                c.append(t.as_str());
                push_clause(&mut query, c.as_str());
            },
            None => {},
        }
        let rc = render_return_clause(&d.return_clause);
        push_clause(&mut query, rc.as_str());
        let tc = render_timeout_clause(&d.timeout);
        push_clause(&mut query, tc.as_str());
        query
    }
}

} // verus!
