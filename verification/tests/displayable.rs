use std::fmt::Display;
use visual::{get_non_displayable_string, DisplayFn, GetDisplayFn, NonDisplayable, Visual, Wrap};

struct Val;

#[derive(Debug)]
struct ValDebug;

#[derive(Debug)]
struct ValDisplayDebug;

impl Display for ValDisplayDebug {
    fn fmt(&self, f: &mut std::fmt::Formatter) -> std::fmt::Result {
        f.write_str("ValDisplayDebug display")
    }
}

struct ValDisplay;

impl Display for ValDisplay {
    fn fmt(&self, f: &mut std::fmt::Formatter) -> std::fmt::Result {
        f.write_str("ValDisplay display")
    }
}

fn assert_display_eq<T, S: DisplayFn<T>>(t: Visual<T, S>, other: &str) {
    assert_eq!(t.get_display(&NonDisplayable::new()), other);
}

#[test]
fn works_with_values() {
    let fallback = NonDisplayable::new();
    assert_display_eq(Visual::new(6, (&&&&Wrap(6)).get_display_fn()), "6");
    assert_display_eq(Visual::new(3.14, (&&&&Wrap(3.14)).get_display_fn()), "3.14");
    assert_display_eq(
        Visual::new(vec![1, 2, 3], (&&&&Wrap(vec![1, 2, 3])).get_display_fn()),
        "[1, 2, 3]",
    );
    assert_display_eq(
        Visual::new(Val, (&&&&Wrap(Val)).get_display_fn()),
        get_non_displayable_string(&fallback),
    );
    assert_display_eq(Visual::new(ValDebug, (&&&&Wrap(ValDebug)).get_display_fn()), "ValDebug");
    assert_display_eq(
        Visual::new(ValDisplayDebug, (&&&&Wrap(ValDisplayDebug)).get_display_fn()),
        "ValDisplayDebug display",
    );
    assert_display_eq(
        Visual::new(ValDisplay, (&&&&Wrap(ValDisplay)).get_display_fn()),
        "ValDisplay display",
    );
}

#[test]
fn works_with_refs() {
    let fallback = NonDisplayable::new();
    assert_display_eq(
        Visual::new(&Val, (&&&&Wrap(&Val)).get_display_fn()),
        get_non_displayable_string(&fallback),
    );
    assert_display_eq(Visual::new(&ValDebug, (&&&&Wrap(&ValDebug)).get_display_fn()), "ValDebug");
    assert_display_eq(
        Visual::new(&ValDisplayDebug, (&&&&Wrap(&ValDisplayDebug)).get_display_fn()),
        "ValDisplayDebug display",
    );
    assert_display_eq(
        Visual::new(&ValDisplay, (&&&&Wrap(&ValDisplay)).get_display_fn()),
        "ValDisplay display",
    );
}

#[test]
fn works_with_string_slice() {
    assert_display_eq(Visual::new("slice", (&&&&Wrap("slice")).get_display_fn()), "slice");
}

#[test]
fn works_with_string() {
    assert_display_eq(
        Visual::new(String::from("hello"), (&&&&Wrap(String::from("hello"))).get_display_fn()),
        "hello",
    );
}

#[test]
fn display_is_preferred_to_debug() {
    let fallback = NonDisplayable::new();
    let both = Visual::new(ValDisplayDebug, (&&&&Wrap(ValDisplayDebug)).get_display_fn());
    assert_eq!(both.get_display(&fallback), "ValDisplayDebug display");
    assert_ne!(both.get_display(&fallback), format!("{:?}", ValDisplayDebug));
}

#[test]
fn debug_is_used_without_display() {
    let fallback = NonDisplayable::new();
    let numbers = Visual::new(vec![1, 2, 3], (&&&&Wrap(vec![1, 2, 3])).get_display_fn());
    assert_eq!(numbers.get_display(&fallback), "[1, 2, 3]");
    let text = Visual::new(Some("a\"b"), (&&&&Wrap(Some("a\"b"))).get_display_fn());
    assert_eq!(text.get_display(&fallback), "Some(\"a\\\"b\")");
}

#[test]
fn each_strategy_gives_what_its_tier_gives() {
    let fallback = NonDisplayable::new();
    assert_eq!(visual::UseDisplay.call(&"a\"b", &fallback), "a\"b");
    assert_eq!(visual::UseDebug.call(&"a\"b", &fallback), "\"a\\\"b\"");
    assert_eq!(visual::UseDefault.call(&"a\"b", &fallback), "");
}

#[test]
fn reference_renders_as_value() {
    let fallback = NonDisplayable::new();
    let number = 6;
    let by_value = Visual::new(number, (&&&&Wrap(number)).get_display_fn());
    let by_ref = Visual::new(&number, (&&&&Wrap(&number)).get_display_fn());
    assert_eq!(by_value.get_display(&fallback), by_ref.get_display(&fallback));

    let numbers = vec![1, 2, 3];
    let by_ref = Visual::new(&numbers, (&&&&Wrap(&numbers)).get_display_fn());
    assert_eq!(by_ref.get_display(&fallback), "[1, 2, 3]");
    let by_value = Visual::new(numbers.clone(), (&&&&Wrap(numbers.clone())).get_display_fn());
    assert_eq!(by_value.get_display(&fallback), "[1, 2, 3]");

    let hello = "hello";
    let by_ref = Visual::new(&hello, (&&&&Wrap(&hello)).get_display_fn());
    assert_eq!(by_ref.get_display(&fallback), "hello");
}

#[test]
fn into_inner_returns_the_wrapped_value() {
    let numbers = Visual::new(vec![1, 2, 3], (&&&&Wrap(vec![1, 2, 3])).get_display_fn());
    assert_eq!(numbers.into_inner(), vec![1, 2, 3]);
    let text = Visual::new(String::from("hello"), (&&&&Wrap(String::from("hello"))).get_display_fn());
    assert_eq!(text.into_inner(), "hello");
    let opaque = Visual::new(7u8, visual::UseDefault);
    assert_eq!(opaque.into_inner(), 7);
}

#[test]
fn wrapper_passes_access_through() {
    let fallback = NonDisplayable::new();
    let mut numbers = Visual::new(vec![1, 2, 3], (&&&&Wrap(vec![1, 2, 3])).get_display_fn());
    assert_eq!(numbers.len(), 3);
    assert_eq!(numbers[1], 2);
    numbers.push(4);
    *numbers.first_mut().unwrap() = 0;
    assert_eq!(numbers.get_display(&fallback), "[0, 2, 3, 4]");
    assert_eq!(numbers.into_inner(), vec![0, 2, 3, 4]);

    let mut number = Visual::new(6, (&&&&Wrap(6)).get_display_fn());
    *number += 1;
    assert_eq!(*number, 7);
    assert_eq!(number.get_display(&fallback), "7");
}
