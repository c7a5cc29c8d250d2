//! The value types of SELECT statements, under the names callers know them by.
pub use crate::types::select::{GraphExpandParams, OrderTerm, SelectData, SelectField};
