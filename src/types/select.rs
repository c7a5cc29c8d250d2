//! Projected fields, ordering terms and graph traversals of a SELECT statement.
use vstd::prelude::*;

use crate::enums::{
    arrow_text, conditions_view, sort_text, Condition, ConditionView, Direction, SelectionFields,
    SelectionView, Sort,
};
use crate::types::delete::{explain_clause_text, where_clause_text, ExplainMode};
use crate::text::{
    ascii_upper, chars_of, decimal, glue, join, join_strings, lemma_assemble_joins_present,
    lemma_assemble_take, lemma_trim_end, present, texts, trim_end, trimmed_len, IntoText,
};

verus! {

/// The model of a projected field.
pub struct FieldView {
    pub name: Seq<char>,
    pub alias: Option<Seq<char>>,
}

/// Text of a projected field: `name` or `name AS alias`.
pub open spec fn field_text(f: FieldView) -> Seq<char> {
    match f.alias {
        Some(a) => f.name + " AS "@ + a,
        None => f.name,
    }
}

/// The characters of an optional string.
pub open spec fn opt_text(o: Option<String>) -> Option<Seq<char>> {
    match o {
        Some(s) => Some(s@),
        None => None,
    }
}

/// One projected field, possibly aliased.
#[derive(Debug)]
pub struct SelectField {
    pub name: String,
    pub alias: Option<String>,
}

impl View for SelectField {
    type V = FieldView;

    open spec fn view(&self) -> FieldView {
        FieldView { name: self.name@, alias: opt_text(self.alias) }
    }
}

/// The models of a list of fields.
pub open spec fn fields_view(v: Seq<SelectField>) -> Seq<FieldView> {
    v.map_values(|f: SelectField| f@)
}

/// Text of a field list: the fields' texts joined by `, `.
pub open spec fn fields_text(fs: Seq<FieldView>) -> Seq<char> {
    join(fs.map_values(|f: FieldView| field_text(f)), ", "@)
}

impl SelectField {
    /// `name` or `name AS alias`.
    pub fn render(&self) -> (r: String)
        ensures
            r@ == field_text(self@),
    {
        let mut out = self.name.clone();
        match &self.alias {
            Some(a) => {
                out.append(" AS ");
                out.append(a.as_str());
            },
            None => {},
        }
        out
    }
}

/// Renders a field list, joined by `, `.
pub fn render_fields(fields: &Vec<SelectField>) -> (r: String)
    ensures
        r@ == fields_text(fields_view(fields@)),
{
    let mut parts: Vec<String> = Vec::new();
    let mut i: usize = 0;
    while i < fields.len()
        invariant
            i <= fields.len(),
            texts(parts@) == fields_view(fields@).take(i as int).map_values(
                |f: FieldView| field_text(f),
            ),
        decreases fields.len() - i,
    {
        let t = fields[i].render();
        let ghost before = parts@;
        parts.push(t);
        assert(parts@ == before.push(t));
        assert(texts(parts@) =~= texts(before).push(t@));
        assert(fields_view(fields@)[i as int] == fields@[i as int]@);
        assert(texts(parts@) =~= fields_view(fields@).take(i + 1).map_values(
            |f: FieldView| field_text(f),
        ));
        i += 1;
    }
    assert(fields_view(fields@).take(i as int) =~= fields_view(fields@));
    join_strings(&parts, ", ")
}

/// Options of an ordering term.
#[derive(Debug, Clone, Copy, PartialEq, Eq)]
pub struct OrderOptions {
    pub numeric: bool,
    pub collate: bool,
    pub direction: Sort,
}

impl Default for OrderOptions {
    /// Ascending, with no modifier.
    fn default() -> (r: OrderOptions)
        ensures
            r == (OrderOptions { numeric: false, collate: false, direction: Sort::Asc }),
    {
        OrderOptions { numeric: false, collate: false, direction: Sort::Asc }
    }
}

impl OrderOptions {
    /// The same options, compared as numbers.
    pub fn numeric(self) -> (r: OrderOptions)
        ensures
            r == (OrderOptions { numeric: true, ..self }),
    {
        OrderOptions { numeric: true, ..self }
    }

    /// The same options, compared by collation.
    pub fn collate(self) -> (r: OrderOptions)
        ensures
            r == (OrderOptions { collate: true, ..self }),
    {
        OrderOptions { collate: true, ..self }
    }
}

/// A value that stands for ordering options.
pub trait IntoOrderOptions: Sized {
    spec fn order_options(&self) -> OrderOptions;

    fn into_order_options(self) -> (r: OrderOptions)
        ensures
            r == self.order_options(),
    ;
}

impl IntoOrderOptions for OrderOptions {
    open spec fn order_options(&self) -> OrderOptions {
        *self
    }

    fn into_order_options(self) -> (r: OrderOptions) {
        self
    }
}

impl IntoOrderOptions for Sort {
    open spec fn order_options(&self) -> OrderOptions {
        OrderOptions { numeric: false, collate: false, direction: *self }
    }

    fn into_order_options(self) -> (r: OrderOptions) {
        OrderOptions { numeric: false, collate: false, direction: self }
    }
}

impl IntoOrderOptions for () {
    open spec fn order_options(&self) -> OrderOptions {
        OrderOptions { numeric: false, collate: false, direction: Sort::Asc }
    }

    fn into_order_options(self) -> (r: OrderOptions) {
        OrderOptions { numeric: false, collate: false, direction: Sort::Asc }
    }
}

/// Text of an ordering term: `field [COLLATE] [NUMERIC] ASC|DESC`.
pub open spec fn order_term_text(field: Seq<char>, o: OrderOptions) -> Seq<char> {
    field + (if o.collate {
        " COLLATE"@
    } else {
        seq![]
    }) + (if o.numeric {
        " NUMERIC"@
    } else {
        seq![]
    }) + " "@ + sort_text(o.direction)
}

/// One term of an ordering clause.
#[derive(Debug)]
pub struct OrderTerm {
    pub field: String,
    pub direction: Sort,
    pub numeric: bool,
    pub collate: bool,
}

/// `t` ends with a space then `m`, compared in ASCII upper case.
pub open spec fn ends_with_modifier(t: Seq<char>, m: Seq<char>) -> bool {
    &&& t.len() >= m.len() + 1
    &&& t[t.len() - m.len() - 1] == ' '
    &&& forall|k: int| 0 <= k < m.len() ==> ascii_upper(#[trigger] t[t.len() - m.len() + k]) == m[k]
}

/// The order modifier keywords, in the order they are tried.
pub open spec fn order_modifier(i: nat) -> Seq<char> {
    if i == 0 {
        seq!['A', 'S', 'C']
    } else if i == 1 {
        seq!['D', 'E', 'S', 'C']
    } else if i == 2 {
        seq!['N', 'U', 'M', 'E', 'R', 'I', 'C']
    } else {
        seq!['C', 'O', 'L', 'L', 'A', 'T', 'E']
    }
}

/// Length of the trailing ` MODIFIER` of `t` (the first keyword that matches), if any.
pub open spec fn trailing_modifier(t: Seq<char>) -> Option<nat> {
    if ends_with_modifier(t, order_modifier(0)) {
        Some(4)
    } else if ends_with_modifier(t, order_modifier(1)) {
        Some(5)
    } else if ends_with_modifier(t, order_modifier(2)) {
        Some(8)
    } else if ends_with_modifier(t, order_modifier(3)) {
        Some(8)
    } else {
        None
    }
}

/// Removes trailing order modifiers one at a time, trimming whitespace after each.
pub open spec fn strip_modifiers(t: Seq<char>) -> Seq<char>
    decreases t.len() via strip_modifiers_decreases
{
    match trailing_modifier(t) {
        Some(k) => if k <= t.len() {
            strip_modifiers(trim_end(t.take(t.len() - k)))
        } else {
            t
        },
        None => t,
    }
}

#[via_fn]
proof fn strip_modifiers_decreases(t: Seq<char>) {
    match trailing_modifier(t) {
        Some(k) => {
            if k <= t.len() {
                lemma_trim_end(t.take(t.len() - k));
            }
        },
        None => {},
    }
}

/// A field with trailing whitespace and trailing order modifiers (`ASC`, `DESC`,
/// `NUMERIC`, `COLLATE`, in any letter case) removed.
pub open spec fn sanitized_field(s: Seq<char>) -> Seq<char> {
    strip_modifiers(trim_end(s))
}

fn modifier_chars(i: usize) -> (r: Vec<char>)
    requires
        i < 4,
    ensures
        r@ == order_modifier(i as nat),
{
    let r = if i == 0 {
        vec!['A', 'S', 'C']
    } else if i == 1 {
        vec!['D', 'E', 'S', 'C']
    } else if i == 2 {
        vec!['N', 'U', 'M', 'E', 'R', 'I', 'C']
    } else {
        vec!['C', 'O', 'L', 'L', 'A', 'T', 'E']
    };
    assert(r@ =~= order_modifier(i as nat));
    r
}

fn upper_char(c: char) -> (r: char)
    ensures
        r == ascii_upper(c),
{
    if 'a' <= c && c <= 'z' {
        (((c as u32) - 32) as u8) as char
    } else {
        c
    }
}

/// Whether `chars[..len]` ends with a space then `m`, compared in ASCII upper case.
fn ends_with_modifier_at(chars: &Vec<char>, len: usize, m: &Vec<char>) -> (r: bool)
    requires
        len <= chars.len(),
    ensures
        r == ends_with_modifier(chars@.take(len as int), m@),
{
    let ghost t = chars@.take(len as int);
    if len <= m.len() {
        return false;
    }
    let start = len - m.len();
    if chars[start - 1] != ' ' {
        return false;
    }
    let mut k: usize = 0;
    while k < m.len()
        invariant
            k <= m.len(),
            start == len - m.len(),
            start >= 1,
            len <= chars.len(),
            t == chars@.take(len as int),
            forall|j: int| 0 <= j < k ==> ascii_upper(#[trigger] t[t.len() - m.len() + j]) == m@[j],
        decreases m.len() - k,
    {
        if upper_char(chars[start + k]) != m[k] {
            assert(t[t.len() - m.len() + k] == chars@[start + k]);
            return false;
        }
        assert(t[t.len() - m.len() + k] == chars@[start + k]);
        k += 1;
    }
    true
}

/// Length of the trailing ` MODIFIER` of `chars[..len]`, or 0 when there is none.
fn trailing_modifier_len(chars: &Vec<char>, len: usize) -> (r: usize)
    requires
        len <= chars.len(),
    ensures
        r == 0 <==> trailing_modifier(chars@.take(len as int)) is None,
        r != 0 ==> trailing_modifier(chars@.take(len as int)) == Some(r as nat),
{
    if ends_with_modifier_at(chars, len, &modifier_chars(0)) {
        4
    } else if ends_with_modifier_at(chars, len, &modifier_chars(1)) {
        5
    } else if ends_with_modifier_at(chars, len, &modifier_chars(2)) {
        8
    } else if ends_with_modifier_at(chars, len, &modifier_chars(3)) {
        8
    } else {
        0
    }
}

impl OrderTerm {
    /// The options of this term.
    pub open spec fn options(&self) -> OrderOptions {
        OrderOptions { numeric: self.numeric, collate: self.collate, direction: self.direction }
    }

    /// Removes trailing order modifiers (`ASC`, `DESC`, `NUMERIC`, `COLLATE`, in any
    /// letter case) and trailing whitespace from a field: `score COLLATE NUMERIC DESC`
    /// becomes `score`. The ordering itself comes from the options given with a term.
    pub fn sanitize_field(s: &str) -> (r: String)
        ensures
            r@ == sanitized_field(s@),
    {
        let chars = chars_of(s);
        let mut len = trimmed_len(&chars, chars.len());
        proof {
            lemma_trim_end(s@);
        }
        assert(chars@.take(chars.len() as int) =~= s@);
        loop
            invariant
                len <= chars.len(),
                chars@ == s@,
                strip_modifiers(chars@.take(len as int)) == sanitized_field(s@),
            ensures
                len <= chars.len(),
                chars@ == s@,
                strip_modifiers(chars@.take(len as int)) == sanitized_field(s@),
                trailing_modifier(chars@.take(len as int)) is None,
            decreases len,
        {
            let ghost t = chars@.take(len as int);
            let found = trailing_modifier_len(&chars, len);
            if found == 0 {
                break;
            }
            let next = trimmed_len(&chars, len - found);
            assert(t.take(t.len() - found) =~= chars@.take(len - found));
            len = next;
        }
        let r = s.substring_char(0, len);
        assert(r@ == chars@.take(len as int));
        assert(strip_modifiers(chars@.take(len as int)) == chars@.take(len as int));
        r.to_string()
    }

    /// `field [COLLATE] [NUMERIC] ASC|DESC`.
    pub fn render(&self) -> (r: String)
        ensures
            r@ == order_term_text(self.field@, self.options()),
    {
        let mut out = self.field.clone();
        if self.collate {
            out.append(" COLLATE");
        }
        if self.numeric {
            out.append(" NUMERIC");
        }
        out.append(" ");
        out.append(self.direction.render());
        assert(out@ =~= order_term_text(self.field@, self.options()));
        out
    }
}

/// One hop of a graph traversal.
#[derive(Debug)]
pub struct GraphStep {
    pub direction: Direction,
    pub table: String,
}

/// Text of a hop: arrow then table.
pub open spec fn step_text(s: GraphStep) -> Seq<char> {
    arrow_text(s.direction) + s.table@
}

/// Text of a traversal path: its hops one after the other.
pub open spec fn path_text(steps: Seq<GraphStep>) -> Seq<char>
    decreases steps.len(),
{
    if steps.len() == 0 {
        seq![]
    } else {
        path_text(steps.drop_last()) + step_text(steps.last())
    }
}

impl GraphStep {
    /// Arrow then table, e.g. `->friends`.
    pub fn render(&self) -> (r: String)
        ensures
            r@ == step_text(*self),
    {
        let mut out = String::new();
        out.append(self.direction.arrow());
        out.append(self.table.as_str());
        out
    }
}

/// The model of a traversal: its path text, what it takes at the end, its alias.
pub struct TraversalView {
    pub path: Seq<char>,
    pub fields: SelectionView,
    pub alias: Option<Seq<char>>,
}

/// A value that stands for a graph traversal.
pub trait IntoTraversal: Sized {
    spec fn traversal_view(&self) -> TraversalView;

    fn into_traversal(self) -> (r: GraphTraversalParams)
        ensures
            r@ == self.traversal_view(),
    ;
}

impl View for GraphTraversalParams {
    type V = TraversalView;

    open spec fn view(&self) -> TraversalView {
        TraversalView { path: path_text(self.steps@), fields: self.fields@, alias: opt_text(self.alias) }
    }
}

impl IntoTraversal for GraphTraversalParams {
    open spec fn traversal_view(&self) -> TraversalView {
        self@
    }

    fn into_traversal(self) -> (r: GraphTraversalParams) {
        self
    }
}

/// A graph traversal to project: a path of hops, what to take at its end, and an
/// optional alias.
#[derive(Debug)]
pub struct GraphTraversalParams {
    pub steps: Vec<GraphStep>,
    pub alias: Option<String>,
    pub fields: SelectionFields,
}

impl GraphTraversalParams {
    /// A traversal of one hop, taking everything at its end, without alias.
    pub fn start<T: IntoText>(direction: Direction, table: T) -> (r: GraphTraversalParams)
        ensures
            r.steps@.len() == 1,
            r.steps@[0].direction == direction,
            r.steps@[0].table@ == table.text(),
            r.alias is None,
            r.fields@ == SelectionView::All,
    {
        GraphTraversalParams {
            steps: vec![GraphStep { direction, table: table.into_text() }],
            alias: None,
            fields: SelectionFields::All,
        }
    }

    /// [`GraphTraversalParams::start`] with an incoming hop.
    pub fn start_in<T: IntoText>(table: T) -> (r: GraphTraversalParams)
        ensures
            r.steps@.len() == 1,
            r.steps@[0].direction == Direction::In,
            r.steps@[0].table@ == table.text(),
            r.alias is None,
            r.fields@ == SelectionView::All,
    {
        Self::start(Direction::In, table)
    }

    /// [`GraphTraversalParams::start`] with an outgoing hop.
    pub fn start_out<T: IntoText>(table: T) -> (r: GraphTraversalParams)
        ensures
            r.steps@.len() == 1,
            r.steps@[0].direction == Direction::Out,
            r.steps@[0].table@ == table.text(),
            r.alias is None,
            r.fields@ == SelectionView::All,
    {
        Self::start(Direction::Out, table)
    }

    /// The same traversal with one more hop at its end.
    pub fn step<T: IntoText>(self, dir: Direction, table: T) -> (r: GraphTraversalParams)
        ensures
            r.steps@.len() == self.steps@.len() + 1,
            r.steps@.drop_last() == self.steps@,
            r.steps@.last().direction == dir,
            r.steps@.last().table@ == table.text(),
            r.alias == self.alias,
            r.fields == self.fields,
    {
        let mut p = self;
        p.steps.push(GraphStep { direction: dir, table: table.into_text() });
        assert(p.steps@.drop_last() =~= self.steps@);
        p
    }

    /// [`GraphTraversalParams::step`] with an incoming hop.
    pub fn step_in<T: IntoText>(self, table: T) -> (r: GraphTraversalParams)
        ensures
            r.steps@.len() == self.steps@.len() + 1,
            r.steps@.drop_last() == self.steps@,
            r.steps@.last().direction == Direction::In,
            r.steps@.last().table@ == table.text(),
            r.alias == self.alias,
            r.fields == self.fields,
    {
        self.step(Direction::In, table)
    }

    /// [`GraphTraversalParams::step`] with an outgoing hop.
    pub fn step_out<T: IntoText>(self, table: T) -> (r: GraphTraversalParams)
        ensures
            r.steps@.len() == self.steps@.len() + 1,
            r.steps@.drop_last() == self.steps@,
            r.steps@.last().direction == Direction::Out,
            r.steps@.last().table@ == table.text(),
            r.alias == self.alias,
            r.fields == self.fields,
    {
        self.step(Direction::Out, table)
    }

    /// The same traversal, taking `fields` at its end.
    pub fn fields(self, fields: SelectionFields) -> (r: GraphTraversalParams)
        ensures
            r.steps == self.steps,
            r.alias == self.alias,
            r.fields == fields,
    {
        let mut p = self;
        p.fields = fields;
        p
    }

    /// The same traversal, under `alias`.
    pub fn alias<T: IntoText>(self, alias: T) -> (r: GraphTraversalParams)
        ensures
            r.steps == self.steps,
            opt_text(r.alias) == Some(alias.text()),
            r.fields == self.fields,
    {
        let mut p = self;
        p.alias = Some(alias.into_text());
        p
    }

    /// The path of this traversal, e.g. `->friends<-posts`.
    pub fn path(&self) -> (r: String)
        ensures
            r@ == path_text(self.steps@),
    {
        let mut out = String::new();
        let mut i: usize = 0;
        assert(self.steps@.take(0) =~= Seq::<GraphStep>::empty());
        while i < self.steps.len()
            invariant
                i <= self.steps.len(),
                out@ == path_text(self.steps@.take(i as int)),
            decreases self.steps.len() - i,
        {
            out.append(self.steps[i].direction.arrow());
            out.append(self.steps[i].table.as_str());
            assert(self.steps@.take(i + 1).drop_last() =~= self.steps@.take(i as int));
            assert(out@ =~= path_text(self.steps@.take(i + 1)));
            i += 1;
        }
        assert(self.steps@.take(i as int) =~= self.steps@);
        out
    }
}

/// A two-hop graph traversal to project.
#[derive(Debug)]
pub struct GraphExpandParams {
    /// First hop (direction and table).
    pub from: (Direction, String),
    /// Second hop (direction and table).
    pub to: (Direction, String),
    /// Optional alias of the projection.
    pub alias: Option<String>,
    pub fields: SelectionFields,
}

impl IntoTraversal for GraphExpandParams {
    open spec fn traversal_view(&self) -> TraversalView {
        TraversalView {
            path: arrow_text(self.from.0) + self.from.1@ + arrow_text(self.to.0) + self.to.1@,
            fields: self.fields@,
            alias: opt_text(self.alias),
        }
    }

    fn into_traversal(self) -> (r: GraphTraversalParams) {
        let GraphExpandParams { from, to, alias, fields } = self;
        let first = GraphStep { direction: from.0, table: from.1 };
        let second = GraphStep { direction: to.0, table: to.1 };
        let steps = vec![first, second];
        assert(steps@.drop_last() =~= seq![first]);
        assert(steps@.drop_last().drop_last() =~= Seq::<GraphStep>::empty());
        assert(seq![first].drop_last() =~= Seq::<GraphStep>::empty());
        assert(seq![first].last() == first);
        assert(path_text(Seq::<GraphStep>::empty()) == Seq::<char>::empty());
        assert(path_text(seq![first]) =~= step_text(first));
        assert(path_text(steps@) == path_text(seq![first]) + step_text(second));
        assert(path_text(steps@) =~= self.traversal_view().path);
        GraphTraversalParams { steps, alias, fields }
    }
}

/// Pending state of a SELECT statement.
#[derive(Debug)]
pub struct SelectData {
    pub fields: Vec<SelectField>,
    pub table: Option<String>,
    pub limit: Option<u64>,
    pub only: bool,
    pub where_clause: Vec<Condition>,
    pub fetch_fields: Vec<String>,
    pub order_by: Vec<String>,
    pub start_at: Option<u64>,
    pub explain: Option<ExplainMode>,
}

/// The model of a [`SelectData`].
pub struct SelectView {
    pub fields: Seq<FieldView>,
    pub table: Option<Seq<char>>,
    pub limit: Option<u64>,
    pub only: bool,
    pub conditions: Seq<ConditionView>,
    pub fetch: Seq<Seq<char>>,
    pub order: Seq<Seq<char>>,
    pub start: Option<u64>,
    pub explain: Option<ExplainMode>,
}

impl View for SelectData {
    type V = SelectView;

    open spec fn view(&self) -> SelectView {
        SelectView {
            fields: fields_view(self.fields@),
            table: opt_text(self.table),
            limit: self.limit,
            only: self.only,
            conditions: conditions_view(self.where_clause@),
            fetch: texts(self.fetch_fields@),
            order: texts(self.order_by@),
            start: self.start_at,
            explain: self.explain,
        }
    }
}

/// The `FROM [ONLY] table` clause, empty without a table.
pub open spec fn from_clause_text(table: Option<Seq<char>>, only: bool) -> Seq<char> {
    match table {
        Some(t) => if only {
            "FROM ONLY "@ + t
        } else {
            "FROM "@ + t
        },
        None => seq![],
    }
}

/// The `ORDER BY ...` clause, empty without terms.
pub open spec fn order_clause_text(order: Seq<Seq<char>>) -> Seq<char> {
    if order.len() == 0 {
        seq![]
    } else {
        "ORDER BY "@ + join(order, ", "@)
    }
}

/// The `LIMIT n` clause, empty without a limit.
pub open spec fn limit_clause_text(limit: Option<u64>) -> Seq<char> {
    match limit {
        Some(n) => "LIMIT "@ + decimal(n as nat),
        None => seq![],
    }
}

/// The `START AT n` clause, empty without an offset.
pub open spec fn start_clause_text(start: Option<u64>) -> Seq<char> {
    match start {
        Some(n) => "START AT "@ + decimal(n as nat),
        None => seq![],
    }
}

/// The `FETCH ...` clause, empty without fields.
pub open spec fn fetch_clause_text(fetch: Seq<Seq<char>>) -> Seq<char> {
    if fetch.len() == 0 {
        seq![]
    } else {
        "FETCH "@ + join(fetch, ", "@)
    }
}

/// Text of a SELECT statement: its clauses in grammar order, separated by single spaces.
pub open spec fn select_text(d: SelectView) -> Seq<char> {
    glue(
        glue(
            glue(
                glue(
                    glue(
                        glue(
                            glue(glue("SELECT"@, fields_text(d.fields)), from_clause_text(d.table, d.only)),
                            where_clause_text(d.conditions),
                        ),
                        order_clause_text(d.order),
                    ),
                    limit_clause_text(d.limit),
                ),
                start_clause_text(d.start),
            ),
            fetch_clause_text(d.fetch),
        ),
        explain_clause_text(d.explain),
    )
}

/// The clauses of a SELECT statement, in grammar order; an absent clause is empty.
pub open spec fn select_clauses(d: SelectView) -> Seq<Seq<char>> {
    seq![
        "SELECT"@,
        fields_text(d.fields),
        from_clause_text(d.table, d.only),
        where_clause_text(d.conditions),
        order_clause_text(d.order),
        limit_clause_text(d.limit),
        start_clause_text(d.start),
        fetch_clause_text(d.fetch),
        explain_clause_text(d.explain),
    ]
}

/// A SELECT renders as its present clauses in grammar order, one space between each two.
pub proof fn lemma_select_layout(d: SelectView)
    ensures
        select_text(d) == join(present(select_clauses(d)), " "@),
{
    let c = select_clauses(d);
    assert(c.take(0) =~= Seq::<Seq<char>>::empty());
    lemma_assemble_take(c, 0);
    lemma_assemble_take(c, 1);
    lemma_assemble_take(c, 2);
    lemma_assemble_take(c, 3);
    lemma_assemble_take(c, 4);
    lemma_assemble_take(c, 5);
    lemma_assemble_take(c, 6);
    lemma_assemble_take(c, 7);
    lemma_assemble_take(c, 8);
    assert(c.take(9) =~= c);
    lemma_assemble_joins_present(c);
}

/// The state of a statement projecting `fields`, with no other clause.
pub open spec fn initial_select(fields: Seq<FieldView>) -> SelectView {
    SelectView {
        fields,
        table: None,
        limit: None,
        only: false,
        conditions: seq![],
        fetch: seq![],
        order: seq![],
        start: None,
        explain: None,
    }
}

impl SelectData {
    /// A statement projecting `fields`, with no other clause.
    pub fn new(fields: Vec<SelectField>) -> (r: SelectData)
        ensures
            r@ == initial_select(fields_view(fields@)),
    {
        let r = SelectData {
            fields,
            table: None,
            limit: None,
            only: false,
            where_clause: Vec::new(),
            fetch_fields: Vec::new(),
            order_by: Vec::new(),
            start_at: None,
            explain: None,
        };
        assert(r@.conditions =~= Seq::<ConditionView>::empty());
        assert(r@.fetch =~= Seq::<Seq<char>>::empty());
        assert(r@.order =~= Seq::<Seq<char>>::empty());
        r
    }
}

/// A copy of an optional string.
pub fn clone_opt(o: &Option<String>) -> (r: Option<String>)
    ensures
        opt_text(r) == opt_text(*o),
{
    match o {
        Some(s) => Some(s.clone()),
        None => None,
    }
}

} // verus!
