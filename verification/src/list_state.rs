use vstd::prelude::*;

verus! {

/// State of the list-run machine that decides when a wrapping container
/// opens and closes around a run of adjacent same-kind blocks.
///
/// The machine is driven once per same-kind block, with one block of
/// lookahead: `Entering` opens a container, `Exiting` closes one, and a
/// block processed in state `NotInList` stands alone, unwrapped.
#[derive(Debug, Clone, Copy, PartialEq, Eq, Structural)]
pub enum ListState {
    NotInList,
    Entering,
    InList,
    Exiting,
}

/// The machine's transition table, driven by the current state and whether
/// the next block is of the same run kind as the one being processed.
pub open spec fn spec_update_list_state(state: ListState, next_block_is_same: bool) -> ListState {
    match (state, next_block_is_same) {
        (ListState::NotInList, false) => ListState::NotInList,
        (ListState::NotInList, true) => ListState::Entering,
        (ListState::Entering, true) => ListState::InList,
        (ListState::InList, true) => ListState::InList,
        (ListState::Entering, false) => ListState::Exiting,
        (ListState::InList, false) => ListState::Exiting,
        (ListState::Exiting, true) => ListState::Entering,
        (ListState::Exiting, false) => ListState::NotInList,
    }
}

/// Advances the list-run machine by one block of its kind.
pub fn update_list_state(state: &mut ListState, next_block_is_same: bool)
    ensures
        *final(state) == spec_update_list_state(*old(state), next_block_is_same),
{
    match (*state, next_block_is_same) {
        (ListState::NotInList, false) => {}
        (ListState::NotInList | ListState::Exiting, true) => *state = ListState::Entering,
        (ListState::Entering, true) => *state = ListState::InList,
        (ListState::InList, true) => {}
        (ListState::Entering | ListState::InList, false) => *state = ListState::Exiting,
        (ListState::Exiting, false) => *state = ListState::NotInList,
    }
}

} // verus!
