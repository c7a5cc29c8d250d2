//! Statement builders: each step consumes the builder and returns it configured.
pub mod select;
pub mod create;
pub mod delete;
pub mod insert;
