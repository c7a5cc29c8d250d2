//! Conversions of caller values into projected fields and timeouts.
use vstd::prelude::*;

use crate::duration::{duration_literal, duration_to_string, Duration};
use crate::types::select::{FieldView, SelectField};

verus! {

/// A value that can stand as a projected field.
pub trait ToSelectField: Sized {
    /// The field the value stands for.
    spec fn field_view(&self) -> FieldView;

    fn to_select_field(self) -> (r: SelectField)
        ensures
            r@ == self.field_view(),
    ;
}

impl<'a> ToSelectField for &'a str {
    open spec fn field_view(&self) -> FieldView {
        FieldView { name: (*self)@, alias: None }
    }

    fn to_select_field(self) -> (r: SelectField) {
        SelectField { name: self.to_string(), alias: None }
    }
}

impl<'a, 'b> ToSelectField for (&'a str, &'b str) {
    open spec fn field_view(&self) -> FieldView {
        FieldView { name: self.0@, alias: Some(self.1@) }
    }

    fn to_select_field(self) -> (r: SelectField) {
        SelectField { name: self.0.to_string(), alias: Some(self.1.to_string()) }
    }
}

/// A value that can stand as the duration of a `TIMEOUT` clause.
pub trait IntoTimeout: Sized {
    /// The duration literal the value stands for.
    spec fn timeout_text(&self) -> Seq<char>;

    fn into_timeout(self) -> (r: String)
        ensures
            r@ == self.timeout_text(),
    ;
}

/// A string is taken as a duration literal as it is (`500ms`, `2s`).
impl<'a> IntoTimeout for &'a str {
    open spec fn timeout_text(&self) -> Seq<char> {
        (*self)@
    }

    fn into_timeout(self) -> (r: String) {
        self.to_string()
    }
}

impl IntoTimeout for String {
    open spec fn timeout_text(&self) -> Seq<char> {
        self@
    }

    fn into_timeout(self) -> (r: String) {
        self
    }
}

/// A duration becomes its compound literal.
impl IntoTimeout for Duration {
    open spec fn timeout_text(&self) -> Seq<char> {
        duration_literal(self@)
    }

    fn into_timeout(self) -> (r: String) {
        duration_to_string(self)
    }
}

} // verus!
