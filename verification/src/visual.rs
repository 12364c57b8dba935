//! The wrapper: a value together with the strategy that renders it.
use crate::fallback::{FallbackState, NonDisplayable};
use crate::strategy::{debug_output, DisplayFn, UseDebug, UseDefault, UseDisplay};
use vstd::prelude::*;

verus! {

/// A value that can be displayed either via `Display` or `Debug`, or with a
/// default representation. The strategy is bound when the wrapper is made
/// and never changes.
pub struct Visual<T, S> {
    inner: T,
    display_fn: S,
}

impl<T, S: DisplayFn<T>> Visual<T, S> {
    /// The wrapper that holds `inner` and `display_fn`.
    pub closed spec fn wrapping(inner: T, display_fn: S) -> Self {
        Visual { inner, display_fn }
    }

    /// The wrapped value.
    pub closed spec fn value(&self) -> T {
        self.inner
    }

    /// The strategy that the wrapper was made with.
    pub closed spec fn strategy(&self) -> S {
        self.display_fn
    }

    /// Whether `out` is a string that this wrapper may render to while the
    /// fallback is in state `fallback`.
    pub open spec fn renders(&self, fallback: FallbackState, out: String) -> bool {
        self.strategy().admits(&self.value(), fallback.text(), out)
    }

    /// Wrap `inner` with the strategy `display_fn`.
    pub fn new(inner: T, display_fn: S) -> (visual: Self)
        ensures
            visual == Self::wrapping(inner, display_fn),
            visual.value() == inner,
            visual.strategy() == display_fn,
    {
        Visual { inner, display_fn }
    }

    /// Extract the inner value
    pub fn into_inner(self) -> (inner: T)
        ensures
            inner == self.value(),
    {
        self.inner
    }

    /// Get a `String` that represents this object: what the strategy gives
    /// for the wrapped value, with the fallback string as `fallback` holds it
    /// now.
    pub fn get_display(&self, fallback: &NonDisplayable) -> (out: String)
        ensures
            self.renders(fallback@, out),
    {
        self.display_fn.call(&self.inner, fallback)
    }

    /// A wrapper holds the value and the strategy that it was made with.
    pub proof fn lemma_wrapping_holds(inner: T, display_fn: S)
        ensures
            Self::wrapping(inner, display_fn).value() == inner,
            Self::wrapping(inner, display_fn).strategy() == display_fn,
    {
    }
}

impl<T, S: DisplayFn<T>> core::ops::Deref for Visual<T, S> {
    type Target = T;

    fn deref(&self) -> (inner: &T)
        ensures
            *inner == self.value(),
    {
        &self.inner
    }
}

impl<T, S: DisplayFn<T>> core::ops::DerefMut for Visual<T, S> {
    fn deref_mut(&mut self) -> (inner: &mut T)
        ensures
            *inner == old(self).value(),
            *final(inner) == final(self).value(),
            final(self).strategy() == old(self).strategy(),
    {
        &mut self.inner
    }
}

/// A wrapper with the `Display` strategy renders to the `Display` output of
/// its value and to nothing else, whatever the fallback holds, and whether
/// or not the type has `Debug` as well.
pub proof fn lemma_display_is_rendered<T: core::fmt::Display>(
    visual: Visual<T, UseDisplay>,
    fallback: FallbackState,
    out: String,
)
    ensures
        visual.renders(fallback, out) <==> vstd::string::to_string_from_display_ensures::<T>(
            &visual.value(),
            out,
        ),
{
}

/// A wrapper with the `Debug` strategy renders to the `Debug` output of its
/// value and to nothing else, whatever the fallback holds.
pub proof fn lemma_debug_is_rendered<T: core::fmt::Debug>(
    visual: Visual<T, UseDebug>,
    fallback: FallbackState,
    out: String,
)
    ensures
        visual.renders(fallback, out) <==> debug_output(&visual.value(), out),
{
}

/// A wrapper with the fallback strategy renders to the fallback string as it
/// reads now, whatever the value.
pub proof fn lemma_fallback_is_rendered<T>(
    visual: Visual<T, UseDefault>,
    fallback: FallbackState,
    out: String,
)
    ensures
        visual.renders(fallback, out) <==> out@ == fallback.text(),
{
}

/// Under the fallback strategy a wrapped reference renders to the same
/// strings as the wrapped value itself.
pub proof fn lemma_fallback_of_reference<T>(
    by_value: Visual<T, UseDefault>,
    by_reference: Visual<&T, UseDefault>,
    fallback: FallbackState,
    out: String,
)
    ensures
        by_reference.renders(fallback, out) <==> by_value.renders(fallback, out),
{
}

} // verus!
