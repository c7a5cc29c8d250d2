//! Dialect selectors and their renderings of graph traversals.
use vstd::prelude::*;

pub mod select;

verus! {

/// Selects the first dialect: no object destructuring on graph traversals.
#[derive(Debug, Clone, Copy)]
pub struct SurrealV1;

/// Selects the second dialect (the default): object destructuring on graph traversals.
#[derive(Debug, Clone, Copy)]
pub struct SurrealV2;

/// Selects the third dialect, which renders traversals as the second does.
#[derive(Debug, Clone, Copy)]
pub struct SurrealV3;

} // verus!
