//! Assembles query statements (SELECT, CREATE, INSERT, DELETE) from typed fragments
//! and renders each as one line of text, clauses in a fixed grammar order whatever
//! the order in which they were configured.
use vstd::prelude::*;

pub mod builders;
pub mod clause_order;
pub mod duration;
pub mod enums;
pub mod render;
pub mod structs;
pub mod text;
pub mod traits;
pub mod types;
pub mod versioning;

pub use crate::duration::Duration;
pub use crate::render::SurrealVersion;
pub use crate::versioning::{SurrealV1, SurrealV2, SurrealV3};

use crate::builders::create::CreateBuilder;
use crate::builders::delete::DeleteBuilder;
use crate::builders::insert::InsertBuilder;
use crate::builders::select::SelectBuilder;
use crate::enums::{SelectionFields, SelectionView};
use crate::render::destructuring;
use crate::types::select::{fields_view, initial_select, FieldView, SelectData, SelectField};
use crate::versioning::select::VersionedSelect;

verus! {

/// The projection a selection stands for: `*` for everything.
pub open spec fn selection_fields(f: SelectionView) -> Seq<FieldView> {
    match f {
        SelectionView::All => seq![FieldView { name: "*"@, alias: None }],
        SelectionView::Fields(fs) => fs,
    }
}

/// Entry point of the statement builders, in the default dialect.
#[derive(Debug)]
pub struct QueryBuilder;

/// Entry point of the statement builders in a chosen dialect.
#[derive(Debug)]
pub struct VersionedQueryBuilder {
    pub version: SurrealVersion,
}

fn select_in(version: SurrealVersion, fields: SelectionFields) -> (r: SelectBuilder)
    ensures
        r.data@ == initial_select(selection_fields(fields@)),
        r.version == version,
{
    let fs = match fields {
        SelectionFields::All => {
            let v = vec![SelectField { name: "*".to_string(), alias: None }];
            assert(fields_view(v@) =~= seq![FieldView { name: "*"@, alias: None }]);
            v
        },
        SelectionFields::Fields(fs) => fs,
    };
    SelectBuilder { data: SelectData::new(fs), version }
}

impl QueryBuilder {
    /// A SELECT statement projecting `fields`.
    pub fn select(fields: SelectionFields) -> (r: SelectBuilder)
        ensures
            r.data@ == initial_select(selection_fields(fields@)),
            r.version == SurrealVersion::V2,
    {
        select_in(SurrealVersion::V2, fields)
    }

    /// A CREATE statement for `targets`.
    pub fn create(targets: &str) -> (r: CreateBuilder)
        ensures
            r.data@.targets == targets@,
            !r.data@.only,
            r.data@.content is None,
            r.data@.return_clause is None,
            r.data@.timeout is None,
    {
        CreateBuilder::new(targets)
    }

    /// A DELETE statement for `targets`.
    pub fn delete(targets: &str) -> (r: DeleteBuilder)
        ensures
            r.data@.targets == targets@,
            r.data@.conditions.len() == 0,
            !r.data@.only,
            r.data@.return_clause is None,
            r.data@.timeout is None,
            r.data@.explain is None,
    {
        DeleteBuilder::new(targets)
    }

    /// An INSERT statement into `target`.
    pub fn insert(target: &str) -> (r: InsertBuilder)
        ensures
            r.data@.target == target@,
            !r.data@.relation,
            !r.data@.ignore,
            r.data@.content is None,
            r.data@.on_duplicate.len() == 0,
            r.data@.return_clause is None,
    {
        InsertBuilder::new(target)
    }

    /// Builders that render in the dialect `version` selects.
    pub fn with_version<V: VersionedSelect>(version: V) -> (r: VersionedQueryBuilder)
        ensures
            destructuring(r.version) == version.destructures(),
    {
        VersionedQueryBuilder { version: version.version() }
    }
}

impl VersionedQueryBuilder {
    /// A SELECT statement projecting `fields`, in this dialect.
    pub fn select(&self, fields: SelectionFields) -> (r: SelectBuilder)
        ensures
            r.data@ == initial_select(selection_fields(fields@)),
            r.version == self.version,
    {
        select_in(self.version, fields)
    }

    /// A CREATE statement for `targets`; its text is the same in every dialect.
    pub fn create(&self, targets: &str) -> (r: CreateBuilder)
        ensures
            r.data@.targets == targets@,
            !r.data@.only,
            r.data@.content is None,
            r.data@.return_clause is None,
            r.data@.timeout is None,
    {
        CreateBuilder::new(targets)
    }

    /// A DELETE statement for `targets`; its text is the same in every dialect.
    pub fn delete(&self, targets: &str) -> (r: DeleteBuilder)
        ensures
            r.data@.targets == targets@,
            r.data@.conditions.len() == 0,
            !r.data@.only,
            r.data@.return_clause is None,
            r.data@.timeout is None,
            r.data@.explain is None,
    {
        DeleteBuilder::new(targets)
    }

    /// An INSERT statement into `target`; its text is the same in every dialect.
    pub fn insert(&self, target: &str) -> (r: InsertBuilder)
        ensures
            r.data@.target == target@,
            !r.data@.relation,
            !r.data@.ignore,
            r.data@.content is None,
            r.data@.on_duplicate.len() == 0,
            r.data@.return_clause is None,
    {
        InsertBuilder::new(target)
    }
}

} // verus!
