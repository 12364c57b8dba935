//! The three strategies by which a value is turned into a string.
use crate::fallback::{get_non_displayable_string, NonDisplayable};
use vstd::prelude::*;

verus! {

/// A strategy: a function from a reference to a value, and the fallback
/// string as it stands when the function is called, to a string.
pub trait DisplayFn<T> {
    /// Whether `out` is a string that this strategy may give for `value`
    /// while the fallback string reads `fallback`.
    spec fn admits(&self, value: &T, fallback: Seq<char>, out: String) -> bool;

    /// Turn `value` into a string.
    fn call(&self, value: &T, fallback: &NonDisplayable) -> (out: String)
        ensures
            self.admits(value, fallback@.text(), out),
    ;
}

/// The strategy of a type that has `Display`: the value's `Display` output.
pub struct UseDisplay;

/// The strategy of a type that has `Debug` but not `Display`: the value's
/// `Debug` output.
pub struct UseDebug;

/// The strategy of a type that has neither: the fallback string, whatever
/// the value.
pub struct UseDefault;

/// Formats `value` with `{:?}`, that is by `Debug::fmt` of its type. What
/// that gives is up to the type's own `Debug`, so nothing is claimed of it.
#[verifier::external_body]
fn format_debug<T: core::fmt::Debug>(value: &T) -> (out: String) {
    format!("{:?}", value)
}

/// Whether `out` is what formatting `value` by its type's `Debug` gave.
pub closed spec fn debug_output<T: core::fmt::Debug>(value: &T, out: String) -> bool {
    call_ensures(format_debug::<T>, (value,), out)
}

impl<T: core::fmt::Display> DisplayFn<T> for UseDisplay {
    open spec fn admits(&self, value: &T, fallback: Seq<char>, out: String) -> bool {
        vstd::string::to_string_from_display_ensures::<T>(value, out)
    }

    fn call(&self, value: &T, fallback: &NonDisplayable) -> (out: String) {
        value.to_string()
    }
}

impl<T: core::fmt::Debug> DisplayFn<T> for UseDebug {
    open spec fn admits(&self, value: &T, fallback: Seq<char>, out: String) -> bool {
        debug_output(value, out)
    }

    fn call(&self, value: &T, fallback: &NonDisplayable) -> (out: String) {
        format_debug(value)
    }
}

impl<T> DisplayFn<T> for UseDefault {
    open spec fn admits(&self, value: &T, fallback: Seq<char>, out: String) -> bool {
        out@ == fallback
    }

    fn call(&self, value: &T, fallback: &NonDisplayable) -> (out: String) {
        get_non_displayable_string(fallback).to_owned()
    }
}

} // verus!
