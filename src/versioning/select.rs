//! How each dialect adds a graph traversal to the projection of a SELECT.
use vstd::prelude::*;

use crate::enums::{SelectionFields, SelectionView};
use crate::render::{destructuring, SurrealVersion};
use crate::types::select::{
    clone_opt, fields_text, fields_view, render_fields, FieldView,
    GraphTraversalParams, SelectData, SelectField, SelectView, TraversalView,
};
use crate::versioning::{SurrealV1, SurrealV2, SurrealV3};

verus! {

/// What a traversal takes at its end: `*`, or `{a, b AS c}`.
pub open spec fn projection_text(f: SelectionView) -> Seq<char> {
    match f {
        SelectionView::All => "*"@,
        SelectionView::Fields(fs) => "{"@ + fields_text(fs) + "}"@,
    }
}

/// The projected fields a traversal adds. Destructuring: one field, the path then
/// `.` and the projection, under the traversal's alias. Otherwise: `path.*` under the
/// traversal's alias for everything, or one `path.name` per listed field, in order,
/// each under its own alias.
pub open spec fn traversal_fields(p: TraversalView, destructure: bool) -> Seq<FieldView> {
    let path = p.path;
    if destructure {
        seq![FieldView { name: path + "."@ + projection_text(p.fields), alias: p.alias }]
    } else {
        match p.fields {
            SelectionView::All => seq![FieldView { name: path + ".*"@, alias: p.alias }],
            SelectionView::Fields(fs) => fs.map_values(
                |f: FieldView| FieldView { name: path + "."@ + f.name, alias: f.alias },
            ),
        }
    }
}

/// A statement with the fields of traversal `p` added after its projection.
pub open spec fn with_traversal(
    d: SelectView,
    p: TraversalView,
    destructure: bool,
) -> SelectView {
    SelectView { fields: d.fields + traversal_fields(p, destructure), ..d }
}

/// Rendering of graph traversals in one dialect.
pub trait VersionedSelect {
    /// The dialect projects traversal fields by destructuring.
    spec fn destructures(&self) -> bool;

    /// The dialect this selector stands for.
    fn version(&self) -> (r: SurrealVersion)
        ensures
            destructuring(r) == self.destructures(),
    ;

    /// Adds the fields of traversal `params` to the projection of `data`.
    fn graph_traverse(&self, data: &mut SelectData, params: GraphTraversalParams)
        ensures
            final(data)@ == with_traversal(old(data)@, params@, self.destructures()),
    ;
}

/// Adds one destructured field for `params` to `data`.
pub fn traverse_destructured(data: &mut SelectData, params: GraphTraversalParams)
    ensures
        final(data)@ == with_traversal(old(data)@, params@, true),
{
    let ghost p = params@;
    let mut name = params.path();
    name.append(".");
    let ghost prefix = name@;
    match &params.fields {
        SelectionFields::All => name.append("*"),
        SelectionFields::Fields(fs) => {
            name.append("{");
            let t = render_fields(fs);
            name.append(t.as_str());
            name.append("}");
            assert(name@ =~= prefix + ("{"@ + fields_text(fields_view(fs@)) + "}"@));
        },
    }
    assert(name@ =~= p.path + "."@ + projection_text(p.fields));
    let ghost old_fields = data.fields@;
    let f = SelectField { name, alias: params.alias };
    data.fields.push(f);
    assert(fields_view(data.fields@) =~= fields_view(old_fields) + traversal_fields(p, true));
}

/// Adds the fields of `params` to `data`, one per listed field, each on its own path.
pub fn traverse_separately(data: &mut SelectData, params: GraphTraversalParams)
    ensures
        final(data)@ == with_traversal(old(data)@, params@, false),
{
    let ghost p = params@;
    let path = params.path();
    let ghost old_fields = data.fields@;
    match &params.fields {
        SelectionFields::All => {
            let mut name = path;
            name.append(".*");
            data.fields.push(SelectField { name, alias: clone_opt(&params.alias) });
            assert(fields_view(data.fields@) =~= fields_view(old_fields) + traversal_fields(p, false));
        },
        SelectionFields::Fields(fs) => {
            let ghost added = traversal_fields(p, false);
            let mut i: usize = 0;
            while i < fs.len()
                invariant
                    i <= fs.len(),
                    added == fields_view(fs@).map_values(
                        |f: FieldView| FieldView { name: path@ + "."@ + f.name, alias: f.alias },
                    ),
                    fields_view(data.fields@) == fields_view(old_fields) + added.take(i as int),
                    data.table == old(data).table,
                    data.limit == old(data).limit,
                    data.only == old(data).only,
                    data.where_clause == old(data).where_clause,
                    data.fetch_fields == old(data).fetch_fields,
                    data.order_by == old(data).order_by,
                    data.start_at == old(data).start_at,
                    data.explain == old(data).explain,
                decreases fs.len() - i,
            {
                let mut name = path.clone();
                name.append(".");
                name.append(fs[i].name.as_str());
                let ghost before = data.fields@;
                data.fields.push(SelectField { name, alias: clone_opt(&fs[i].alias) });
                assert(fields_view(data.fields@) =~= fields_view(before).push(added[i as int]));
                assert(added.take(i + 1) =~= added.take(i as int).push(added[i as int]));
                i += 1;
            }
            assert(added.take(i as int) =~= added);
        },
    }
}

impl VersionedSelect for SurrealV1 {
    open spec fn destructures(&self) -> bool {
        false
    }

    fn version(&self) -> (r: SurrealVersion) {
        SurrealVersion::V1
    }

    fn graph_traverse(&self, data: &mut SelectData, params: GraphTraversalParams) {
        traverse_separately(data, params)
    }
}

impl VersionedSelect for SurrealV2 {
    open spec fn destructures(&self) -> bool {
        true
    }

    fn version(&self) -> (r: SurrealVersion) {
        SurrealVersion::V2
    }

    fn graph_traverse(&self, data: &mut SelectData, params: GraphTraversalParams) {
        traverse_destructured(data, params)
    }
}

impl VersionedSelect for SurrealV3 {
    open spec fn destructures(&self) -> bool {
        true
    }

    fn version(&self) -> (r: SurrealVersion) {
        SurrealVersion::V2
    }

    fn graph_traverse(&self, data: &mut SelectData, params: GraphTraversalParams) {
        traverse_destructured(data, params)
    }
}

} // verus!
