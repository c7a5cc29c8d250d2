//! Pending state of an INSERT statement.
use vstd::prelude::*;

use crate::text::{join, join_strings, texts};
use crate::types::create::{assignments_view, SetField};
use crate::types::delete::{opt_return, ReturnClause, ReturnView};

verus! {

/// How an INSERT statement provides its data.
#[derive(Debug)]
pub enum InsertContent {
    /// A raw value expression (e.g. `{ name: 'Tobie' }` or an array of objects).
    Value(String),
    /// `(@fields) VALUES (@values), ...`: each row is meant to have as many values as
    /// there are fields; that is not checked here.
    FieldsValues { fields: Vec<String>, values: Vec<Vec<String>> },
}

/// The model of an [`InsertContent`].
pub enum InsertContentView {
    Value(Seq<char>),
    FieldsValues(Seq<Seq<char>>, Seq<Seq<Seq<char>>>),
}

/// The models of a list of value rows.
pub open spec fn rows_view(v: Seq<Vec<String>>) -> Seq<Seq<Seq<char>>> {
    v.map_values(|r: Vec<String>| texts(r@))
}

/// The model of optional insert content.
pub open spec fn opt_insert_content(c: Option<InsertContent>) -> Option<InsertContentView> {
    match c {
        Some(InsertContent::Value(v)) => Some(InsertContentView::Value(v@)),
        Some(InsertContent::FieldsValues { fields, values }) => Some(
            InsertContentView::FieldsValues(texts(fields@), rows_view(values@)),
        ),
        None => None,
    }
}

/// Text of one row: `(v1, v2)`.
pub open spec fn row_text(row: Seq<Seq<char>>) -> Seq<char> {
    "("@ + join(row, ", "@) + ")"@
}

/// Text of rows: `(a, b), (c, d)`.
pub open spec fn rows_text(rows: Seq<Seq<Seq<char>>>) -> Seq<char> {
    join(rows.map_values(|row: Seq<Seq<char>>| row_text(row)), ", "@)
}

/// The first data clause: the raw value, or `(fields)` when there are fields.
pub open spec fn content_head_text(c: Option<InsertContentView>) -> Seq<char> {
    match c {
        Some(InsertContentView::Value(v)) => v,
        Some(InsertContentView::FieldsValues(fs, _)) => if fs.len() == 0 {
            seq![]
        } else {
            "("@ + join(fs, ", "@) + ")"@
        },
        None => seq![],
    }
}

/// The second data clause: `VALUES rows` when there are rows.
pub open spec fn content_rows_text(c: Option<InsertContentView>) -> Seq<char> {
    match c {
        Some(InsertContentView::FieldsValues(_, rows)) => if rows.len() == 0 {
            seq![]
        } else {
            "VALUES "@ + rows_text(rows)
        },
        _ => seq![],
    }
}

/// Renders value rows: `(a, b), (c, d)`.
pub fn render_rows(rows: &Vec<Vec<String>>) -> (r: String)
    ensures
        r@ == rows_text(rows_view(rows@)),
{
    let ghost target = rows_view(rows@).map_values(|row: Seq<Seq<char>>| row_text(row));
    let mut parts: Vec<String> = Vec::new();
    let mut i: usize = 0;
    while i < rows.len()
        invariant
            i <= rows.len(),
            target == rows_view(rows@).map_values(|row: Seq<Seq<char>>| row_text(row)),
            texts(parts@) == target.take(i as int),
        decreases rows.len() - i,
    {
        let mut t = "(".to_string();
        let j = join_strings(&rows[i], ", ");
        t.append(j.as_str());
        t.append(")");
        let ghost before = parts@;
        parts.push(t);
        assert(texts(parts@) =~= texts(before).push(t@));
        assert(target.take(i + 1) =~= target.take(i as int).push(target[i as int]));
        i += 1;
    }
    assert(target.take(i as int) =~= target);
    join_strings(&parts, ", ")
}

/// Pending state of an INSERT statement.
#[derive(Debug)]
pub struct InsertData {
    /// The target table or record id.
    pub target: String,
    /// `INSERT RELATION` instead of `INSERT`.
    pub relation: bool,
    /// `IGNORE` after `INSERT [RELATION]`.
    pub ignore: bool,
    pub content: Option<InsertContent>,
    /// Assignments of the `ON DUPLICATE KEY UPDATE` clause.
    pub on_duplicate_key_update: Vec<SetField>,
    pub return_clause: Option<ReturnClause>,
}

/// The model of an [`InsertData`].
pub struct InsertView {
    pub target: Seq<char>,
    pub relation: bool,
    pub ignore: bool,
    pub content: Option<InsertContentView>,
    pub on_duplicate: Seq<(Seq<char>, Seq<char>)>,
    pub return_clause: Option<ReturnView>,
}

impl View for InsertData {
    type V = InsertView;

    open spec fn view(&self) -> InsertView {
        InsertView {
            target: self.target@,
            relation: self.relation,
            ignore: self.ignore,
            content: opt_insert_content(self.content),
            on_duplicate: assignments_view(self.on_duplicate_key_update@),
            return_clause: opt_return(self.return_clause),
        }
    }
}

} // verus!
