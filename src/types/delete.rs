//! RETURN and EXPLAIN clauses, and the pending state of a DELETE statement.
use vstd::prelude::*;

use crate::enums::{conditions_view, joined_text, render_conjunction, Condition, ConditionView};
use crate::types::select::opt_text;
use crate::text::{join, join_strings, texts};

verus! {

/// What a data-changing statement returns.
#[derive(Debug)]
pub enum ReturnClause {
    /// `RETURN NONE`
    Nothing,
    /// `RETURN BEFORE`
    Before,
    /// `RETURN AFTER`
    After,
    /// `RETURN DIFF`
    Diff,
    /// `RETURN <field1>, <field2>, ...`
    Params(Vec<String>),
    /// `RETURN VALUE <field>`
    Value(String),
}

/// The model of a [`ReturnClause`].
pub enum ReturnView {
    Nothing,
    Before,
    After,
    Diff,
    Params(Seq<Seq<char>>),
    Value(Seq<char>),
}

impl View for ReturnClause {
    type V = ReturnView;

    open spec fn view(&self) -> ReturnView {
        match self {
            ReturnClause::Nothing => ReturnView::Nothing,
            ReturnClause::Before => ReturnView::Before,
            ReturnClause::After => ReturnView::After,
            ReturnClause::Diff => ReturnView::Diff,
            ReturnClause::Params(ps) => ReturnView::Params(texts(ps@)),
            ReturnClause::Value(v) => ReturnView::Value(v@),
        }
    }
}

/// Text after the `RETURN` keyword.
pub open spec fn return_text(r: ReturnView) -> Seq<char> {
    match r {
        ReturnView::Nothing => "NONE"@,
        ReturnView::Before => "BEFORE"@,
        ReturnView::After => "AFTER"@,
        ReturnView::Diff => "DIFF"@,
        ReturnView::Params(ps) => join(ps, ", "@),
        ReturnView::Value(v) => "VALUE "@ + v,
    }
}

/// The models of an optional return clause.
pub open spec fn opt_return(r: Option<ReturnClause>) -> Option<ReturnView> {
    match r {
        Some(c) => Some(c@),
        None => None,
    }
}

/// The `RETURN ...` clause, empty when there is none.
pub open spec fn return_clause_text(r: Option<ReturnView>) -> Seq<char> {
    match r {
        Some(c) => "RETURN "@ + return_text(c),
        None => seq![],
    }
}

impl ReturnClause {
    /// Text after the `RETURN` keyword.
    pub fn render(&self) -> (r: String)
        ensures
            r@ == return_text(self@),
    {
        match self {
            ReturnClause::Nothing => "NONE".to_string(),
            ReturnClause::Before => "BEFORE".to_string(),
            ReturnClause::After => "AFTER".to_string(),
            ReturnClause::Diff => "DIFF".to_string(),
            ReturnClause::Params(ps) => join_strings(ps, ", "),
            ReturnClause::Value(v) => {
                let mut out = "VALUE ".to_string();
                out.append(v.as_str());
                out
            },
        }
    }
}

/// Renders the `RETURN ...` clause, empty when there is none.
pub fn render_return_clause(r: &Option<ReturnClause>) -> (s: String)
    ensures
        s@ == return_clause_text(opt_return(*r)),
{
    match r {
        Some(c) => {
            let mut out = "RETURN ".to_string();
            let t = c.render();
            out.append(t.as_str());
            out
        },
        None => String::new(),
    }
}

/// Mode of an `EXPLAIN` clause.
#[derive(Debug, Clone, Copy, PartialEq, Eq)]
pub enum ExplainMode {
    /// `EXPLAIN`
    Simple,
    /// `EXPLAIN FULL`
    Full,
}

/// The `EXPLAIN` clause, empty when there is none.
pub open spec fn explain_clause_text(m: Option<ExplainMode>) -> Seq<char> {
    match m {
        Some(ExplainMode::Simple) => "EXPLAIN"@,
        Some(ExplainMode::Full) => "EXPLAIN FULL"@,
        None => seq![],
    }
}

impl ExplainMode {
    /// `EXPLAIN` or `EXPLAIN FULL`.
    pub fn render(&self) -> (r: &'static str)
        ensures
            r@ == explain_clause_text(Some(*self)),
    {
        match self {
            ExplainMode::Simple => "EXPLAIN",
            ExplainMode::Full => "EXPLAIN FULL",
        }
    }
}

/// Renders the `EXPLAIN` clause, empty when there is none.
pub fn render_explain_clause(m: Option<ExplainMode>) -> (r: &'static str)
    ensures
        r@ == explain_clause_text(m),
{
    proof {
        reveal_strlit("");
    }
    match m {
        Some(mode) => mode.render(),
        None => "",
    }
}

/// The `TIMEOUT ...` clause, empty when there is none.
pub open spec fn timeout_clause_text(t: Option<Seq<char>>) -> Seq<char> {
    match t {
        Some(d) => "TIMEOUT "@ + d,
        None => seq![],
    }
}

/// Renders the `TIMEOUT ...` clause, empty when there is none.
pub fn render_timeout_clause(t: &Option<String>) -> (r: String)
    ensures
        r@ == timeout_clause_text(opt_text(*t)),
{
    match t {
        Some(d) => {
            let mut out = "TIMEOUT ".to_string();
            out.append(d.as_str());
            out
        },
        None => String::new(),
    }
}

/// The `WHERE ...` clause: top-level conditions joined by `AND` without
/// parentheses around the whole list; empty when there are none.
pub open spec fn where_clause_text(cs: Seq<ConditionView>) -> Seq<char> {
    if cs.len() == 0 {
        seq![]
    } else {
        "WHERE "@ + joined_text(cs, " AND "@)
    }
}

/// Renders the `WHERE ...` clause, empty when there are no conditions.
pub fn render_where_clause(cs: &Vec<Condition>) -> (r: String)
    ensures
        r@ == where_clause_text(conditions_view(cs@)),
{
    if cs.len() == 0 {
        proof {
            crate::enums::lemma_conditions_view(cs@);
        }
        String::new()
    } else {
        proof {
            crate::enums::lemma_conditions_view(cs@);
        }
        let mut out = "WHERE ".to_string();
        let t = render_conjunction(cs);
        out.append(t.as_str());
        out
    }
}

/// Pending state of a DELETE statement.
#[derive(Debug)]
pub struct DeleteData {
    pub targets: String,
    pub where_clause: Vec<Condition>,
    /// `DELETE ONLY` instead of `DELETE FROM`. A single-result `RETURN` is expected with
    /// it; that is not checked here but by the server.
    pub only: bool,
    pub return_clause: Option<ReturnClause>,
    /// Duration literal of the `TIMEOUT` clause (e.g. `2s`, `500ms`).
    pub timeout: Option<String>,
    pub explain: Option<ExplainMode>,
}

/// The model of a [`DeleteData`].
pub struct DeleteView {
    pub targets: Seq<char>,
    pub conditions: Seq<ConditionView>,
    pub only: bool,
    pub return_clause: Option<ReturnView>,
    pub timeout: Option<Seq<char>>,
    pub explain: Option<ExplainMode>,
}

impl View for DeleteData {
    type V = DeleteView;

    open spec fn view(&self) -> DeleteView {
        DeleteView {
            targets: self.targets@,
            conditions: conditions_view(self.where_clause@),
            only: self.only,
            return_clause: opt_return(self.return_clause),
            timeout: opt_text(self.timeout),
            explain: self.explain,
        }
    }
}

} // verus!
