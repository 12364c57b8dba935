//! The fallback string: what a value renders to when its type has neither
//! `Display` nor `Debug`.
use vstd::prelude::*;

verus! {

/// The fallback string as a state machine. It starts out unset, where it
/// reads as the empty string; the first assignment fixes it, and it stays as
/// assigned from then on.
pub enum FallbackState {
    Unset,
    Assigned(Seq<char>),
}

impl FallbackState {
    /// The string that a reader sees in this state.
    pub open spec fn text(self) -> Seq<char> {
        match self {
            FallbackState::Unset => Seq::empty(),
            FallbackState::Assigned(text) => text,
        }
    }

    /// The state after an attempt to assign `value`: an unset state takes
    /// it, an assigned state stays as it is.
    pub open spec fn assign(self, value: Seq<char>) -> FallbackState {
        match self {
            FallbackState::Unset => FallbackState::Assigned(value),
            FallbackState::Assigned(_) => self,
        }
    }
}

/// The text of the error that a second assignment is answered with.
pub open spec fn already_initialized() -> Seq<char> {
    "Attempting to initialize static variable `NON_DISPLAYABLE` twice"@
}

/// A write-once cell for the fallback string.
#[derive(Clone, Copy)]
pub struct NonDisplayable {
    value: Option<&'static str>,
}

impl View for NonDisplayable {
    type V = FallbackState;

    closed spec fn view(&self) -> FallbackState {
        match self.value {
            None => FallbackState::Unset,
            Some(text) => FallbackState::Assigned(text@),
        }
    }
}

impl NonDisplayable {
    /// A cell that has not been assigned yet.
    pub fn new() -> (cell: Self)
        ensures
            cell@ == FallbackState::Unset,
    {
        NonDisplayable { value: None }
    }
}

/// Set the string that should be used to display [`crate::visual::Visual`]
/// objects whose type implements neither `Display` nor `Debug`.
///
/// Only the first call on a cell succeeds; every later one fails and leaves
/// the cell as it was.
pub fn set_non_displayable_string(
    cell: &mut NonDisplayable,
    value: &'static str,
) -> (outcome: Result<(), String>)
    ensures
        final(cell)@ == old(cell)@.assign(value@),
        match outcome {
            Ok(_) => old(cell)@ is Unset,
            Err(message) => old(cell)@ is Assigned && message@ == already_initialized(),
        },
{
    if cell.value.is_some() {
        return Err(
            "Attempting to initialize static variable `NON_DISPLAYABLE` twice".to_owned(),
        );
    }
    cell.value = Some(value);
    Ok(())
}

/// Get the string that should be used to display [`crate::visual::Visual`]
/// objects whose type implements neither `Display` nor `Debug`: the empty
/// string until one has been set.
pub fn get_non_displayable_string(cell: &NonDisplayable) -> (text: &'static str)
    ensures
        text@ == cell@.text(),
{
    match cell.value {
        Some(text) => text,
        None => {
            proof {
                reveal_strlit("");
                assert(""@ =~= Seq::<char>::empty());
            }
            ""
        },
    }
}

/// An unset fallback takes the first string assigned to it, and reads as
/// that string after any further attempt to assign another.
pub proof fn lemma_first_assignment_stays(
    state: FallbackState,
    first: Seq<char>,
    second: Seq<char>,
)
    requires
        state is Unset,
    ensures
        state.assign(first) == FallbackState::Assigned(first),
        state.assign(first).text() == first,
        state.assign(first).assign(second) == state.assign(first),
        state.assign(first).assign(second).text() == first,
{
}

/// An assigned fallback is terminal: no further assignment changes the
/// state or the string that is read from it.
pub proof fn lemma_set_is_terminal(state: FallbackState, value: Seq<char>)
    requires
        state is Assigned,
    ensures
        state.assign(value) == state,
        state.assign(value).text() == state.text(),
{
}

} // verus!
