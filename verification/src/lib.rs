//! Best-effort stringification of arbitrary values.
//!
//! A value is wrapped together with a strategy that turns it into a string.
//! The strategy is resolved from the capabilities of the value's type, in
//! strict priority order:
//!
//! 1. the type has `Display`: its `Display` output is used;
//! 2. otherwise the type has `Debug`: its `Debug` output is used;
//! 3. otherwise the value is ignored and a configurable fallback string is
//!    used, read when the wrapper is rendered.
//!
//! The fallback string is a write-once cell: empty until it is assigned, and
//! fixed by the first assignment.
//!
//! ```rust
//! use visual::{set_non_displayable_string, GetDisplayFn, NonDisplayable, Visual, Wrap};
//!
//! let mut fallback = NonDisplayable::new();
//!
//! // `Vec` has no `Display`, but it has `Debug`, so that is used
//! let numbers = Visual::new(vec![1, 2, 3], (&&&&Wrap(vec![1, 2, 3])).get_display_fn());
//! assert_eq!(numbers.get_display(&fallback), "[1, 2, 3]");
//!
//! // `MyStruct` has neither, so the fallback string is used
//! struct MyStruct;
//! let opaque = Visual::new(MyStruct, (&&&&Wrap(MyStruct)).get_display_fn());
//! assert_eq!(opaque.get_display(&fallback), "");
//! set_non_displayable_string(&mut fallback, "nothing").unwrap();
//! assert_eq!(opaque.get_display(&fallback), "nothing");
//! ```
pub mod fallback;
pub mod resolve;
pub mod strategy;
pub mod visual;

pub use fallback::{
    get_non_displayable_string, set_non_displayable_string, FallbackState, NonDisplayable,
};
pub use resolve::{GetDisplayFn, Wrap};
pub use strategy::{DisplayFn, UseDebug, UseDefault, UseDisplay};
pub use visual::Visual;
