//! Target dialect of the rendered text.
use vstd::prelude::*;

verus! {

/// Dialect of the query language to render for.
///
/// `V2` (the default) projects several fields of a graph traversal by object
/// destructuring (`->edge->table.{a, b}`); `V1` has no destructuring and projects
/// each field on its own path (`->edge->table.a, ->edge->table.b`).
#[derive(Debug, Clone, Copy, PartialEq, Eq)]
pub enum SurrealVersion {
    V1,
    V2,
}

/// The dialect projects traversal fields by destructuring.
pub open spec fn destructuring(v: SurrealVersion) -> bool {
    v == SurrealVersion::V2
}

impl Default for SurrealVersion {
    /// The second dialect.
    fn default() -> (r: SurrealVersion)
        ensures
            r == SurrealVersion::V2,
    {
        SurrealVersion::V2
    }
}

} // verus!
