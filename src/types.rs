//! The pending state of each kind of statement, and the values it is made of.
pub mod select;
pub mod delete;
pub mod create;
pub mod insert;
