//! DELETE statements.
use vstd::prelude::*;

use crate::clause_order::{apply_all, distinct_slots, lemma_order_free, slots_commute};
use crate::enums::{ConditionView, IntoCondition};
use crate::text::{
    collect_texts, glue, join, lemma_assemble_joins_present, lemma_assemble_take, present,
    push_clause, IntoText,
};
use crate::traits::IntoTimeout;
use crate::types::delete::{
    explain_clause_text, render_explain_clause, render_return_clause, render_timeout_clause,
    render_where_clause, return_clause_text, timeout_clause_text, where_clause_text, DeleteData,
    DeleteView, ExplainMode, ReturnClause, ReturnView,
};

verus! {

/// Builds a DELETE statement.
#[derive(Debug)]
pub struct DeleteBuilder {
    pub data: DeleteData,
}

/// One configuration step of a DELETE statement.
pub enum DeleteOp {
    Only,
    Where(ConditionView),
    Return(ReturnView),
    Timeout(Seq<char>),
    Explain(ExplainMode),
}

/// Effect of a step: conditions accumulate; `ONLY`, the return mode, the timeout and
/// the explain mode keep the last value set.
pub open spec fn delete_step(d: DeleteView, op: DeleteOp) -> DeleteView {
    match op {
        DeleteOp::Only => DeleteView { only: true, ..d },
        DeleteOp::Where(c) => DeleteView { conditions: d.conditions.push(c), ..d },
        DeleteOp::Return(r) => DeleteView { return_clause: Some(r), ..d },
        DeleteOp::Timeout(t) => DeleteView { timeout: Some(t), ..d },
        DeleteOp::Explain(m) => DeleteView { explain: Some(m), ..d },
    }
}

/// The clause a step configures.
pub open spec fn delete_slot(op: DeleteOp) -> nat {
    match op {
        DeleteOp::Only => 0,
        DeleteOp::Where(_) => 1,
        DeleteOp::Return(_) => 2,
        DeleteOp::Timeout(_) => 3,
        DeleteOp::Explain(_) => 4,
    }
}

/// Text of a DELETE statement: `DELETE ONLY target` or `DELETE FROM target`, then
/// conditions, return, timeout, explain.
pub open spec fn delete_text(d: DeleteView) -> Seq<char> {
    glue(
        glue(
            glue(
                glue(
                    if d.only {
                        "DELETE ONLY "@ + d.targets
                    } else {
                        "DELETE FROM "@ + d.targets
                    },
                    where_clause_text(d.conditions),
                ),
                return_clause_text(d.return_clause),
            ),
            timeout_clause_text(d.timeout),
        ),
        explain_clause_text(d.explain),
    )
}

/// The clauses of a DELETE statement, in grammar order; an absent clause is empty.
pub open spec fn delete_clauses(d: DeleteView) -> Seq<Seq<char>> {
    seq![
        if d.only {
            "DELETE ONLY "@ + d.targets
        } else {
            "DELETE FROM "@ + d.targets
        },
        where_clause_text(d.conditions),
        return_clause_text(d.return_clause),
        timeout_clause_text(d.timeout),
        explain_clause_text(d.explain),
    ]
}

/// A DELETE renders as its present clauses in grammar order, one space between each two.
pub proof fn lemma_delete_layout(d: DeleteView)
    ensures
        delete_text(d) == join(present(delete_clauses(d)), " "@),
{
    let c = delete_clauses(d);
    assert(c.take(0) =~= Seq::<Seq<char>>::empty());
    lemma_assemble_take(c, 0);
    lemma_assemble_take(c, 1);
    lemma_assemble_take(c, 2);
    lemma_assemble_take(c, 3);
    lemma_assemble_take(c, 4);
    assert(c.take(5) =~= c);
    lemma_assemble_joins_present(c);
}

/// Configuring distinct clauses of a DELETE in any order renders the same statement.
pub proof fn lemma_delete_clause_order(d: DeleteView, ops1: Seq<DeleteOp>, ops2: Seq<DeleteOp>)
    requires
        distinct_slots(|o: DeleteOp| delete_slot(o), ops1),
        ops1.to_multiset() == ops2.to_multiset(),
    ensures
        delete_text(apply_all(|v: DeleteView, o: DeleteOp| delete_step(v, o), d, ops1))
            == delete_text(apply_all(|v: DeleteView, o: DeleteOp| delete_step(v, o), d, ops2)),
{
    let step = |v: DeleteView, o: DeleteOp| delete_step(v, o);
    let slot = |o: DeleteOp| delete_slot(o);
    assert(slots_commute(step, slot)) by {
        assert forall|v: DeleteView, a: DeleteOp, b: DeleteOp| slot(a) != slot(b) implies #[trigger] step(
            step(v, a),
            b,
        ) == step(step(v, b), a) by {}
    }
    lemma_order_free(step, slot, d, ops1, ops2);
}

impl DeleteBuilder {
    /// A statement deleting from `targets`, with no other clause.
    pub fn new(targets: &str) -> (r: DeleteBuilder)
        ensures
            r.data@ == (DeleteView {
                targets: targets@,
                conditions: seq![],
                only: false,
                return_clause: None,
                timeout: None,
                explain: None,
            }),
    {
        let r = DeleteBuilder {
            data: DeleteData {
                targets: targets.to_string(),
                where_clause: Vec::new(),
                only: false,
                return_clause: None,
                timeout: None,
                explain: None,
            },
        };
        assert(r.data@.conditions =~= Seq::<ConditionView>::empty());
        r
    }

    /// Switches to `DELETE ONLY`. A single-result return mode is expected with it; that
    /// is left to the server to check.
    pub fn only(self) -> (r: DeleteBuilder)
        ensures
            r.data@ == delete_step(self.data@, DeleteOp::Only),
    {
        let mut b = self;
        b.data.only = true;
        b
    }

    /// Adds a condition; conditions are joined by `AND`.
    pub fn where_<T: IntoCondition>(self, condition: T) -> (r: DeleteBuilder)
        ensures
            r.data@ == delete_step(self.data@, DeleteOp::Where(condition.condition_view())),
    {
        let mut b = self;
        let ghost old_c = b.data.where_clause@;
        let c = condition.into_condition();
        b.data.where_clause.push(c);
        assert(b.data.where_clause@.drop_last() =~= old_c);
        b
    }

    /// Sets `RETURN NONE`; the last return mode set wins.
    pub fn return_none(self) -> (r: DeleteBuilder)
        ensures
            r.data@ == delete_step(self.data@, DeleteOp::Return(ReturnView::Nothing)),
    {
        let mut b = self;
        b.data.return_clause = Some(ReturnClause::Nothing);
        b
    }

    /// Sets `RETURN BEFORE`; the last return mode set wins.
    pub fn return_before(self) -> (r: DeleteBuilder)
        ensures
            r.data@ == delete_step(self.data@, DeleteOp::Return(ReturnView::Before)),
    {
        let mut b = self;
        b.data.return_clause = Some(ReturnClause::Before);
        b
    }

    /// Sets `RETURN AFTER`; the last return mode set wins.
    pub fn return_after(self) -> (r: DeleteBuilder)
        ensures
            r.data@ == delete_step(self.data@, DeleteOp::Return(ReturnView::After)),
    {
        let mut b = self;
        b.data.return_clause = Some(ReturnClause::After);
        b
    }

    /// Sets `RETURN DIFF`; the last return mode set wins.
    pub fn return_diff(self) -> (r: DeleteBuilder)
        ensures
            r.data@ == delete_step(self.data@, DeleteOp::Return(ReturnView::Diff)),
    {
        let mut b = self;
        b.data.return_clause = Some(ReturnClause::Diff);
        b
    }

    /// Sets `RETURN a, b, ...`; the last return mode set wins.
    pub fn return_params<S: IntoText>(self, params: Vec<S>) -> (r: DeleteBuilder)
        ensures
            r.data@ == delete_step(
                self.data@,
                DeleteOp::Return(ReturnView::Params(params@.map_values(|s: S| s.text()))),
            ),
    {
        let mut b = self;
        b.data.return_clause = Some(ReturnClause::Params(collect_texts(params)));
        b
    }

    /// Sets `TIMEOUT duration`; the last value set wins.
    pub fn timeout<T: IntoTimeout>(self, duration: T) -> (r: DeleteBuilder)
        ensures
            r.data@ == delete_step(self.data@, DeleteOp::Timeout(duration.timeout_text())),
    {
        let mut b = self;
        b.data.timeout = Some(duration.into_timeout());
        b
    }

    /// Sets the explain mode to `EXPLAIN`; the last mode set wins.
    pub fn explain(self) -> (r: DeleteBuilder)
        ensures
            r.data@ == delete_step(self.data@, DeleteOp::Explain(ExplainMode::Simple)),
    {
        let mut b = self;
        b.data.explain = Some(ExplainMode::Simple);
        b
    }

    /// Sets the explain mode to `EXPLAIN FULL`; the last mode set wins.
    pub fn explain_full(self) -> (r: DeleteBuilder)
        ensures
            r.data@ == delete_step(self.data@, DeleteOp::Explain(ExplainMode::Full)),
    {
        let mut b = self;
        b.data.explain = Some(ExplainMode::Full);
        b
    }

    /// Renders the statement.
    pub fn build(&self) -> (r: String)
        ensures
            r@ == delete_text(self.data@),
    {
        let d = &self.data;
        let mut query = String::new();
        let mut head = if d.only {
            "DELETE ONLY ".to_string()
        } else {
            "DELETE FROM ".to_string()
        };
        head.append(d.targets.as_str());
        push_clause(&mut query, head.as_str());
        let wc = render_where_clause(&d.where_clause);
        push_clause(&mut query, wc.as_str());
        let rc = render_return_clause(&d.return_clause);
        push_clause(&mut query, rc.as_str());
        let tc = render_timeout_clause(&d.timeout);
        push_clause(&mut query, tc.as_str());
        push_clause(&mut query, render_explain_clause(d.explain));
        query
    }
}

} // verus!
