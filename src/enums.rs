//! Predicates, traversal directions, sort directions and projections.
use vstd::prelude::*;

use crate::types::select::{fields_view, FieldView, OrderOptions, SelectField};

verus! {

/// Direction of a graph traversal arrow.
#[derive(Debug, Clone, Copy, PartialEq, Eq)]
pub enum Direction {
    /// Outgoing (`->`).
    Out,
    /// Incoming (`<-`).
    In,
}

/// The arrow that stands for a direction.
pub open spec fn arrow_text(d: Direction) -> Seq<char> {
    match d {
        Direction::Out => "->"@,
        Direction::In => "<-"@,
    }
}

impl Direction {
    /// The arrow of this direction: `->` or `<-`.
    pub fn arrow(&self) -> (r: &'static str)
        ensures
            r@ == arrow_text(*self),
    {
        match self {
            Direction::Out => "->",
            Direction::In => "<-",
        }
    }
}

/// Sort direction of an ordering term.
#[derive(Debug, Clone, Copy, PartialEq, Eq)]
pub enum Sort {
    Asc,
    Desc,
}

/// The keyword of a sort direction.
pub open spec fn sort_text(s: Sort) -> Seq<char> {
    match s {
        Sort::Asc => "ASC"@,
        Sort::Desc => "DESC"@,
    }
}

impl Sort {
    /// `ASC` or `DESC`.
    pub fn render(&self) -> (r: &'static str)
        ensures
            r@ == sort_text(*self),
    {
        match self {
            Sort::Asc => "ASC",
            Sort::Desc => "DESC",
        }
    }

    /// Ordering options in this direction, compared as numbers.
    pub fn numeric(self) -> (r: OrderOptions)
        ensures
            r == (OrderOptions { numeric: true, collate: false, direction: self }),
    {
        OrderOptions { numeric: true, collate: false, direction: self }
    }

    /// Ordering options in this direction, compared by collation.
    pub fn collate(self) -> (r: OrderOptions)
        ensures
            r == (OrderOptions { numeric: false, collate: true, direction: self }),
    {
        OrderOptions { numeric: false, collate: true, direction: self }
    }
}

impl Default for Sort {
    /// Ascending.
    fn default() -> (r: Sort)
        ensures
            r == Sort::Asc,
    {
        Sort::Asc
    }
}

/// What a projection selects: everything, or a list of fields.
#[derive(Debug)]
pub enum SelectionFields {
    /// Everything (`*`).
    All,
    /// The listed fields, in order.
    Fields(Vec<SelectField>),
}

/// The model of a [`SelectionFields`].
pub enum SelectionView {
    All,
    Fields(Seq<FieldView>),
}

impl View for SelectionFields {
    type V = SelectionView;

    open spec fn view(&self) -> SelectionView {
        match self {
            SelectionFields::All => SelectionView::All,
            SelectionFields::Fields(fs) => SelectionView::Fields(fields_view(fs@)),
        }
    }
}

impl Default for SelectionFields {
    /// Everything.
    fn default() -> (r: SelectionFields)
        ensures
            r@ == SelectionView::All,
    {
        SelectionFields::All
    }
}

impl SelectionFields {
    /// A field list made of one field for each item, in order.
    pub fn from_items<T: crate::traits::ToSelectField>(items: Vec<T>) -> (r: SelectionFields)
        ensures
            r@ == SelectionView::Fields(items@.map_values(|t: T| t.field_view())),
    {
        let mut items = items;
        let ghost all = items@;
        let mut out: Vec<SelectField> = Vec::new();
        assert(fields_view(out@) + items@.map_values(|t: T| t.field_view()) =~= all.map_values(
            |t: T| t.field_view(),
        ));
        while items.len() > 0
            invariant
                fields_view(out@) + items@.map_values(|t: T| t.field_view()) == all.map_values(
                    |t: T| t.field_view(),
                ),
            decreases items.len(),
        {
            let ghost before = items@;
            let x = items.remove(0);
            assert(before =~= seq![x] + items@);
            let f = x.to_select_field();
            out.push(f);
            assert(fields_view(out@) + items@.map_values(|t: T| t.field_view()) =~= all.map_values(
                |t: T| t.field_view(),
            ));
        }
        assert(fields_view(out@) =~= all.map_values(|t: T| t.field_view()));
        SelectionFields::Fields(out)
    }
}

/// A predicate tree.
#[derive(Debug)]
pub enum Condition {
    /// A raw predicate, rendered as it is (e.g. `price > 50`).
    Simple(String),
    /// Children joined by `AND`, in parentheses.
    And(Vec<Condition>),
    /// Children joined by `OR`, in parentheses.
    Or(Vec<Condition>),
}

/// The shape of a [`Condition`], with its text as character sequences.
pub enum ConditionView {
    Simple(Seq<char>),
    And(Seq<ConditionView>),
    Or(Seq<ConditionView>),
}

/// The model of a condition.
pub open spec fn condition_view(c: Condition) -> ConditionView
    decreases c,
{
    match c {
        Condition::Simple(s) => ConditionView::Simple(s@),
        Condition::And(cs) => ConditionView::And(conditions_view(cs@)),
        Condition::Or(cs) => ConditionView::Or(conditions_view(cs@)),
    }
}

/// The models of a list of conditions, in order.
pub open spec fn conditions_view(cs: Seq<Condition>) -> Seq<ConditionView>
    decreases cs,
{
    if cs.len() == 0 {
        seq![]
    } else {
        conditions_view(cs.drop_last()).push(condition_view(cs.last()))
    }
}

impl View for Condition {
    type V = ConditionView;

    open spec fn view(&self) -> ConditionView {
        condition_view(*self)
    }
}

pub proof fn lemma_conditions_view(cs: Seq<Condition>)
    ensures
        conditions_view(cs).len() == cs.len(),
        forall|i: int| 0 <= i < cs.len() ==> #[trigger] conditions_view(cs)[i] == condition_view(cs[i]),
    decreases cs.len(),
{
    if cs.len() > 0 {
        lemma_conditions_view(cs.drop_last());
    }
}

/// Text of a condition: a leaf as it is, a group in parentheses with its children
/// joined by the connective.
pub open spec fn condition_text(c: ConditionView) -> Seq<char>
    decreases c,
{
    match c {
        ConditionView::Simple(s) => s,
        ConditionView::And(cs) => "("@ + joined_text(cs, " AND "@) + ")"@,
        ConditionView::Or(cs) => "("@ + joined_text(cs, " OR "@) + ")"@,
    }
}

/// Texts of `cs` with `sep` between consecutive ones.
pub open spec fn joined_text(cs: Seq<ConditionView>, sep: Seq<char>) -> Seq<char>
    decreases cs,
{
    if cs.len() == 0 {
        seq![]
    } else if cs.len() == 1 {
        condition_text(cs[0])
    } else {
        joined_text(cs.drop_last(), sep) + sep + condition_text(cs.last())
    }
}

/// Result of `a.and(b)`: a conjunction grows by one child, anything else becomes
/// the first of two children.
pub open spec fn and_view(a: ConditionView, b: ConditionView) -> ConditionView {
    match a {
        ConditionView::And(cs) => ConditionView::And(cs.push(b)),
        _ => ConditionView::And(seq![a, b]),
    }
}

/// Result of `a.or(b)`: always a new two-child disjunction.
pub open spec fn or_view(a: ConditionView, b: ConditionView) -> ConditionView {
    ConditionView::Or(seq![a, b])
}

/// A value that can stand as a condition.
pub trait IntoCondition: Sized {
    /// The condition the value stands for.
    spec fn condition_view(&self) -> ConditionView;

    fn into_condition(self) -> (r: Condition)
        ensures
            r@ == self.condition_view(),
    ;
}

impl IntoCondition for Condition {
    open spec fn condition_view(&self) -> ConditionView {
        self@
    }

    fn into_condition(self) -> (r: Condition) {
        self
    }
}

impl<'a> IntoCondition for &'a str {
    open spec fn condition_view(&self) -> ConditionView {
        ConditionView::Simple((*self)@)
    }

    fn into_condition(self) -> (r: Condition) {
        Condition::Simple(self.to_string())
    }
}

impl IntoCondition for String {
    open spec fn condition_view(&self) -> ConditionView {
        ConditionView::Simple(self@)
    }

    fn into_condition(self) -> (r: Condition) {
        Condition::Simple(self)
    }
}

impl Condition {
    /// A leaf condition holding `text` as it is.
    pub fn new(text: &str) -> (r: Condition)
        ensures
            r@ == ConditionView::Simple(text@),
    {
        Condition::Simple(text.to_string())
    }

    /// Conjunction of `self` and `other`; a conjunction takes `other` as one more child.
    pub fn and<T: IntoCondition>(self, other: T) -> (r: Condition)
        ensures
            r@ == and_view(self@, other.condition_view()),
    {
        let o = other.into_condition();
        match self {
            Condition::And(mut cs) => {
                let ghost old_cs = cs@;
                cs.push(o);
                assert(cs@.drop_last() =~= old_cs);
                Condition::And(cs)
            },
            first => {
                let cs = vec![first, o];
                assert(cs@.drop_last().drop_last() =~= Seq::<Condition>::empty());
                assert(cs@.drop_last() =~= seq![first]);
                proof {
                    lemma_conditions_view(cs@);
                }
                assert(conditions_view(cs@) =~= seq![first@, o@]);
                Condition::And(cs)
            },
        }
    }

    /// Disjunction of `self` and `other`, always as a new group of two.
    pub fn or<T: IntoCondition>(self, other: T) -> (r: Condition)
        ensures
            r@ == or_view(self@, other.condition_view()),
    {
        let o = other.into_condition();
        let cs = vec![self, o];
        assert(cs@.drop_last().drop_last() =~= Seq::<Condition>::empty());
        assert(cs@.drop_last() =~= seq![self]);
        proof {
            lemma_conditions_view(cs@);
        }
        assert(conditions_view(cs@) =~= seq![self@, o@]);
        Condition::Or(cs)
    }

    /// Appends the text of this condition to `out`.
    pub fn write_to(&self, out: &mut String)
        ensures
            final(out)@ == old(out)@ + condition_text(self@),
        decreases self,
    {
        match self {
            Condition::Simple(s) => out.append(s.as_str()),
            Condition::And(cs) => {
                out.append("(");
                write_joined(cs, " AND ", out);
                out.append(")");
            },
            Condition::Or(cs) => {
                out.append("(");
                write_joined(cs, " OR ", out);
                out.append(")");
            },
        }
    }

    /// The text of this condition.
    pub fn render(&self) -> (r: String)
        ensures
            r@ == condition_text(self@),
    {
        let mut out = String::new();
        self.write_to(&mut out);
        out
    }
}

/// Renders top-level conditions joined by `AND`, without parentheses around the list.
pub fn render_conjunction(cs: &Vec<Condition>) -> (r: String)
    ensures
        r@ == joined_text(conditions_view(cs@), " AND "@),
{
    let mut out = String::new();
    write_joined(cs, " AND ", &mut out);
    out
}

/// Appends the texts of `cs` to `out`, with `sep` between consecutive ones.
fn write_joined(cs: &Vec<Condition>, sep: &str, out: &mut String)
    ensures
        final(out)@ == old(out)@ + joined_text(conditions_view(cs@), sep@),
    decreases cs,
{
    let ghost start = out@;
    let ghost vs = conditions_view(cs@);
    proof {
        lemma_conditions_view(cs@);
    }
    let mut i: usize = 0;
    assert(vs.take(0) =~= Seq::<ConditionView>::empty());
    while i < cs.len()
        invariant
            i <= cs.len(),
            vs == conditions_view(cs@),
            vs.len() == cs.len(),
            forall|j: int| 0 <= j < cs.len() ==> #[trigger] vs[j] == condition_view(cs@[j]),
            out@ == start + joined_text(vs.take(i as int), sep@),
        decreases cs.len() - i,
    {
        if i > 0 {
            out.append(sep);
        }
        assert(decreases_to!(*cs => cs@[i as int]));
        cs[i].write_to(out);
        assert(vs.take(i + 1).drop_last() =~= vs.take(i as int));
        if i == 0 {
            assert(vs.take(1) =~= seq![vs[0]]);
        }
        assert(out@ =~= start + joined_text(vs.take(i + 1), sep@));
        i += 1;
    }
    assert(vs.take(i as int) =~= vs);
}

/// Nesting depth of a condition tree: a leaf is 0, a group one more than its deepest child.
pub open spec fn tree_depth(c: ConditionView) -> nat
    decreases c,
{
    match c {
        ConditionView::Simple(_) => 0,
        ConditionView::And(cs) => 1 + children_depth(cs),
        ConditionView::Or(cs) => 1 + children_depth(cs),
    }
}

/// Depth of the deepest condition in `cs` (0 for none).
pub open spec fn children_depth(cs: Seq<ConditionView>) -> nat
    decreases cs,
{
    if cs.len() == 0 {
        0
    } else {
        let a = children_depth(cs.drop_last());
        let b = tree_depth(cs.last());
        if a >= b {
            a
        } else {
            b
        }
    }
}

/// `s` holds no parenthesis.
pub open spec fn paren_free(s: Seq<char>) -> bool {
    forall|i: int| 0 <= i < s.len() ==> #[trigger] s[i] != '(' && s[i] != ')'
}

/// Every leaf of the tree is free of parentheses.
pub open spec fn plain_leaves(c: ConditionView) -> bool
    decreases c,
{
    match c {
        ConditionView::Simple(s) => paren_free(s),
        ConditionView::And(cs) => all_plain_leaves(cs),
        ConditionView::Or(cs) => all_plain_leaves(cs),
    }
}

/// Every condition in `cs` has leaves free of parentheses.
pub open spec fn all_plain_leaves(cs: Seq<ConditionView>) -> bool
    decreases cs,
{
    cs.len() > 0 ==> all_plain_leaves(cs.drop_last()) && plain_leaves(cs.last())
}

/// Change of parenthesis level across one character.
pub open spec fn paren_step(ch: char) -> int {
    if ch == '(' {
        1
    } else if ch == ')' {
        -1
    } else {
        0
    }
}

/// Level of parentheses at the end of `s`.
pub open spec fn paren_net(s: Seq<char>) -> int
    decreases s.len(),
{
    if s.len() == 0 {
        0
    } else {
        paren_step(s[0]) + paren_net(s.skip(1))
    }
}

/// Deepest level of parentheses reached in `s`.
pub open spec fn paren_depth(s: Seq<char>) -> int
    decreases s.len(),
{
    if s.len() == 0 {
        0
    } else {
        let d = paren_step(s[0]) + paren_depth(s.skip(1));
        if d >= 0 {
            d
        } else {
            0
        }
    }
}

pub proof fn lemma_paren_concat(a: Seq<char>, b: Seq<char>)
    ensures
        paren_net(a + b) == paren_net(a) + paren_net(b),
        paren_depth(a + b) == if paren_depth(a) >= paren_net(a) + paren_depth(b) {
            paren_depth(a)
        } else {
            paren_net(a) + paren_depth(b)
        },
        paren_depth(a) >= 0,
    decreases a.len(),
{
    if a.len() == 0 {
        assert(a + b =~= b);
        lemma_paren_depth_nonneg(b);
    } else {
        assert((a + b).skip(1) =~= a.skip(1) + b);
        lemma_paren_concat(a.skip(1), b);
    }
}

pub proof fn lemma_paren_depth_nonneg(s: Seq<char>)
    ensures
        paren_depth(s) >= 0,
    decreases s.len(),
{
}

pub proof fn lemma_paren_free(s: Seq<char>)
    requires
        paren_free(s),
    ensures
        paren_net(s) == 0,
        paren_depth(s) == 0,
    decreases s.len(),
{
    if s.len() > 0 {
        assert(paren_free(s.skip(1))) by {
            assert forall|i: int| 0 <= i < s.skip(1).len() implies #[trigger] s.skip(1)[i] != '('
                && s.skip(1)[i] != ')' by {
                assert(s.skip(1)[i] == s[i + 1]);
            }
        }
        lemma_paren_free(s.skip(1));
    }
}

proof fn lemma_keywords_paren_free()
    ensures
        paren_free(" AND "@),
        paren_free(" OR "@),
        paren_net("("@) == 1,
        paren_depth("("@) == 1,
        paren_net(")"@) == -1,
        paren_depth(")"@) == 0,
{
    reveal_strlit(" AND ");
    reveal_strlit(" OR ");
    reveal_strlit("(");
    reveal_strlit(")");
    assert("("@.skip(1) =~= Seq::<char>::empty());
    assert(")"@.skip(1) =~= Seq::<char>::empty());
    assert("("@[0] == '(');
    assert(")"@[0] == ')');
    assert(paren_net(Seq::<char>::empty()) == 0);
    assert(paren_depth(Seq::<char>::empty()) == 0);
}

/// Text of a tree with plain leaves is balanced, and its parentheses nest exactly as
/// deep as the tree.
pub proof fn lemma_condition_parens(c: ConditionView)
    requires
        plain_leaves(c),
    ensures
        paren_net(condition_text(c)) == 0,
        paren_depth(condition_text(c)) == tree_depth(c),
    decreases c,
{
    lemma_keywords_paren_free();
    match c {
        ConditionView::Simple(s) => lemma_paren_free(s),
        ConditionView::And(cs) => {
            lemma_joined_parens(cs, " AND "@);
            lemma_wrap_parens(joined_text(cs, " AND "@));
        },
        ConditionView::Or(cs) => {
            lemma_joined_parens(cs, " OR "@);
            lemma_wrap_parens(joined_text(cs, " OR "@));
        },
    }
}

proof fn lemma_wrap_parens(j: Seq<char>)
    requires
        paren_net(j) == 0,
    ensures
        paren_net("("@ + j + ")"@) == 0,
        paren_depth("("@ + j + ")"@) == 1 + paren_depth(j),
{
    lemma_keywords_paren_free();
    lemma_paren_concat(j, ")"@);
    lemma_paren_concat("("@, j + ")"@);
    assert("("@ + j + ")"@ =~= "("@ + (j + ")"@));
}

proof fn lemma_joined_parens(cs: Seq<ConditionView>, sep: Seq<char>)
    requires
        all_plain_leaves(cs),
        paren_free(sep),
    ensures
        paren_net(joined_text(cs, sep)) == 0,
        paren_depth(joined_text(cs, sep)) == children_depth(cs),
    decreases cs,
{
    if cs.len() == 0 {
    } else if cs.len() == 1 {
        assert(cs.drop_last() =~= Seq::<ConditionView>::empty());
        assert(cs.last() == cs[0]);
        assert(plain_leaves(cs[0]));
        lemma_condition_parens(cs[0]);
        assert(children_depth(cs.drop_last()) == 0);
    } else {
        let init = cs.drop_last();
        assert(all_plain_leaves(init) && plain_leaves(cs.last()));
        lemma_joined_parens(init, sep);
        lemma_condition_parens(cs.last());
        lemma_paren_free(sep);
        let a = joined_text(init, sep);
        let t = condition_text(cs.last());
        lemma_paren_concat(sep, t);
        lemma_paren_concat(a, sep + t);
        assert(a + sep + t =~= a + (sep + t));
    }
}

/// Rendering is a function of the tree alone, so rendering the same tree again gives
/// the same text; and when no leaf holds a parenthesis, the parentheses of the text
/// nest exactly as deep as the tree.
pub proof fn lemma_render_idempotent_and_depth(c: ConditionView, d: ConditionView)
    requires
        c == d,
    ensures
        condition_text(c) == condition_text(d),
        plain_leaves(c) ==> paren_depth(condition_text(c)) == tree_depth(c),
{
    if plain_leaves(c) {
        lemma_condition_parens(c);
    }
}

/// `a.and(b).and(c)` is one group of three, `(a AND b AND c)`, when `a` is not itself
/// a conjunction; `a.or(b).or(c)` nests, `((a OR b) OR c)`, for every `a`.
pub proof fn lemma_and_flattens_or_nests(a: ConditionView, b: ConditionView, c: ConditionView)
    ensures
        !(a is And) ==> condition_text(and_view(and_view(a, b), c)) == "("@ + condition_text(a)
            + " AND "@ + condition_text(b) + " AND "@ + condition_text(c) + ")"@,
        condition_text(or_view(or_view(a, b), c)) == "("@ + "("@ + condition_text(a) + " OR "@
            + condition_text(b) + ")"@ + " OR "@ + condition_text(c) + ")"@,
{
    let ab = seq![a, b];
    assert(ab.drop_last() =~= seq![a]);
    assert(seq![a].drop_last() =~= Seq::<ConditionView>::empty());
    assert(joined_text(seq![a], " AND "@) == condition_text(a));
    assert(joined_text(seq![a], " OR "@) == condition_text(a));
    if !(a is And) {
        let abc = ab.push(c);
        assert(abc.drop_last() =~= ab);
        assert(joined_text(ab, " AND "@) == condition_text(a) + " AND "@ + condition_text(b));
        assert(and_view(and_view(a, b), c) == ConditionView::And(abc));
        assert(joined_text(abc, " AND "@) =~= condition_text(a) + " AND "@ + condition_text(b)
            + " AND "@ + condition_text(c));
    }
    let o = or_view(a, b);
    let oc = seq![o, c];
    assert(oc.drop_last() =~= seq![o]);
    assert(seq![o].drop_last() =~= Seq::<ConditionView>::empty());
    assert(joined_text(seq![o], " OR "@) == condition_text(o));
    assert(condition_text(or_view(o, c)) =~= "("@ + "("@ + condition_text(a) + " OR "@
        + condition_text(b) + ")"@ + " OR "@ + condition_text(c) + ")"@);
}

} // verus!
