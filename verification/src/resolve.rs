//! Resolution of a type's strategy from the capabilities that the type has.
//!
//! The resolver is the method [`GetDisplayFn::get_display_fn`], called on
//! `&&&&Wrap(value)`. Method lookup tries the receiver with the most
//! references first, so of the three impls below the one for `&&&Wrap<T>`
//! is taken where `T` has `Display`, else the one for `&&Wrap<T>` where `T`
//! has `Debug`, else the one for `&Wrap<T>`, which every type has.
use crate::strategy::{debug_output, DisplayFn, UseDebug, UseDefault, UseDisplay};
use vstd::prelude::*;

verus! {

/// Carries a value of the type whose strategy is to be resolved.
pub struct Wrap<T>(pub T);

/// Gives the strategy of the wrapped type.
pub trait GetDisplayFn {
    /// The type of the values that the strategy takes.
    type Target;

    /// The strategy that was resolved.
    type DisplayFn: DisplayFn<Self::Target>;

    fn get_display_fn(&self) -> (display_fn: Self::DisplayFn);
}

impl<T> GetDisplayFn for &Wrap<T> {
    type Target = T;

    type DisplayFn = UseDefault;

    /// The strategy of last resort: the fallback string.
    fn get_display_fn(&self) -> (display_fn: UseDefault)
        ensures
            forall|value: &T, fallback: Seq<char>, out: String|
                #[trigger] display_fn.admits(value, fallback, out) <==> out@ == fallback,
    {
        UseDefault
    }
}

impl<T: core::fmt::Debug> GetDisplayFn for &&Wrap<T> {
    type Target = T;

    type DisplayFn = UseDebug;

    /// The strategy of a type with `Debug`: its `Debug` output.
    fn get_display_fn(&self) -> (display_fn: UseDebug)
        ensures
            forall|value: &T, fallback: Seq<char>, out: String|
                #[trigger] display_fn.admits(value, fallback, out) <==> debug_output(value, out),
    {
        UseDebug
    }
}

impl<T: core::fmt::Display> GetDisplayFn for &&&Wrap<T> {
    type Target = T;

    type DisplayFn = UseDisplay;

    /// The strategy of a type with `Display`: its `Display` output.
    fn get_display_fn(&self) -> (display_fn: UseDisplay)
        ensures
            forall|value: &T, fallback: Seq<char>, out: String|
                #[trigger] display_fn.admits(value, fallback, out)
                    <==> vstd::string::to_string_from_display_ensures::<T>(value, out),
    {
        UseDisplay
    }
}

} // verus!
