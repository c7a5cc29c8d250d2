//! Pending state of a CREATE statement.
use vstd::prelude::*;

use crate::text::{join, texts};
use crate::types::delete::{opt_return, ReturnClause, ReturnView};
use crate::types::select::opt_text;

verus! {

/// A single `field = value` assignment.
#[derive(Debug)]
pub struct SetField {
    /// The field name (e.g. `name`, `settings.theme`).
    pub field: String,
    /// The raw value expression (e.g. `'Tobie'`, `42`).
    pub value: String,
}

/// Text of an assignment: `field = value`.
pub open spec fn assignment_text(a: (Seq<char>, Seq<char>)) -> Seq<char> {
    a.0 + " = "@ + a.1
}

/// The models of a list of assignments.
pub open spec fn assignments_view(v: Seq<SetField>) -> Seq<(Seq<char>, Seq<char>)> {
    v.map_values(|f: SetField| (f.field@, f.value@))
}

/// Text of a list of assignments, joined by `, `.
pub open spec fn assignments_text(v: Seq<(Seq<char>, Seq<char>)>) -> Seq<char> {
    join(v.map_values(|a: (Seq<char>, Seq<char>)| assignment_text(a)), ", "@)
}

/// Renders a list of assignments, joined by `, `.
pub fn render_assignments(v: &Vec<SetField>) -> (r: String)
    ensures
        r@ == assignments_text(assignments_view(v@)),
{
    let ghost target = assignments_view(v@).map_values(|a: (Seq<char>, Seq<char>)| assignment_text(a));
    let mut parts: Vec<String> = Vec::new();
    let mut i: usize = 0;
    while i < v.len()
        invariant
            i <= v.len(),
            target == assignments_view(v@).map_values(|a: (Seq<char>, Seq<char>)| assignment_text(a)),
            texts(parts@) == target.take(i as int),
        decreases v.len() - i,
    {
        let mut t = v[i].field.clone();
        t.append(" = ");
        t.append(v[i].value.as_str());
        let ghost before = parts@;
        parts.push(t);
        assert(texts(parts@) =~= texts(before).push(t@));
        assert(target.take(i + 1) =~= target.take(i as int).push(target[i as int]));
        i += 1;
    }
    assert(target.take(i as int) =~= target);
    crate::text::join_strings(&parts, ", ")
}

/// How a CREATE statement sets data: one mode at a time.
#[derive(Debug)]
pub enum ContentMode {
    /// `CONTENT @value`
    Content(String),
    /// `SET @field = @value, ...`
    Assignments(Vec<SetField>),
}

/// The model of a [`ContentMode`].
pub enum ContentView {
    Content(Seq<char>),
    Assignments(Seq<(Seq<char>, Seq<char>)>),
}

/// The model of an optional content mode.
pub open spec fn opt_content(c: Option<ContentMode>) -> Option<ContentView> {
    match c {
        Some(ContentMode::Content(v)) => Some(ContentView::Content(v@)),
        Some(ContentMode::Assignments(fs)) => Some(ContentView::Assignments(assignments_view(fs@))),
        None => None,
    }
}

/// The `CONTENT ...` or `SET ...` clause, empty when there is none.
pub open spec fn content_clause_text(c: Option<ContentView>) -> Seq<char> {
    match c {
        Some(ContentView::Content(v)) => "CONTENT "@ + v,
        Some(ContentView::Assignments(fs)) => "SET "@ + assignments_text(fs),
        None => seq![],
    }
}

/// Pending state of a CREATE statement.
#[derive(Debug)]
pub struct CreateData {
    /// The target table or record id (e.g. `person`, `person:tobie`).
    pub targets: String,
    /// `CREATE ONLY` instead of `CREATE`. A single-result `RETURN` is expected with it;
    /// that is not checked here but by the server.
    pub only: bool,
    pub content: Option<ContentMode>,
    pub return_clause: Option<ReturnClause>,
    /// Duration literal of the `TIMEOUT` clause (e.g. `2s`, `500ms`).
    pub timeout: Option<String>,
}

/// The model of a [`CreateData`].
pub struct CreateView {
    pub targets: Seq<char>,
    pub only: bool,
    pub content: Option<ContentView>,
    pub return_clause: Option<ReturnView>,
    pub timeout: Option<Seq<char>>,
}

impl View for CreateData {
    type V = CreateView;

    open spec fn view(&self) -> CreateView {
        CreateView {
            targets: self.targets@,
            only: self.only,
            content: opt_content(self.content),
            return_clause: opt_return(self.return_clause),
            timeout: opt_text(self.timeout),
        }
    }
}

} // verus!
