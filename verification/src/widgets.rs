//! What the browser relies on of the list and scrollbar states that the
//! drawing layer keeps. The contracts in this file are taken from the
//! widget library's source and are not proved here.

use ratatui::widgets::{ListState, ScrollbarState};
use vstd::prelude::*;

verus! {

/// `ratatui::widgets::ListState`, opaque to the verifier.
#[verifier::external_type_specification]
#[verifier::external_body]
pub struct ExListState(ListState);

/// `ratatui::widgets::ScrollbarState`, opaque to the verifier.
#[verifier::external_type_specification]
#[verifier::external_body]
pub struct ExScrollbarState(ScrollbarState);

/// The index that a list state marks as selected, if any.
pub uninterp spec fn list_selected(state: ListState) -> Option<usize>;

/// The position that a scrollbar state holds.
pub uninterp spec fn scrollbar_position(state: ScrollbarState) -> usize;

/// The content length that a scrollbar state holds.
pub uninterp spec fn scrollbar_content_length(state: ScrollbarState) -> usize;

/// `ListState::default`: a state with nothing selected.
pub assume_specification[ <ListState as Default>::default ]() -> (r: ListState)
    ensures
        list_selected(r) is None,
;

/// `ListState::selected`: reads the selected index.
pub assume_specification[ ListState::selected ](state: &ListState) -> (r: Option<usize>)
    ensures
        r == list_selected(*state),
;

/// `ListState::select`: stores the given index as the selection.
pub assume_specification[ ListState::select ](state: &mut ListState, index: Option<usize>)
    ensures
        list_selected(*final(state)) == index,
;

/// `ListState::select_first`: selects index 0.
pub assume_specification[ ListState::select_first ](state: &mut ListState)
    ensures
        list_selected(*final(state)) == Some(0usize),
;

/// `ListState::select_next`: selects the index after the selected one,
/// saturating at `usize::MAX`, or index 0 where nothing was selected.
pub assume_specification[ ListState::select_next ](state: &mut ListState)
    ensures
        list_selected(*final(state)) == Some(
            match list_selected(*old(state)) {
                Some(i) => if i < usize::MAX { (i + 1) as usize } else { usize::MAX },
                None => 0usize,
            },
        ),
;

/// `ListState::select_previous`: selects the index before the selected one,
/// saturating at 0, or `usize::MAX` where nothing was selected.
pub assume_specification[ ListState::select_previous ](state: &mut ListState)
    ensures
        list_selected(*final(state)) == Some(
            match list_selected(*old(state)) {
                Some(i) => if i > 0 { (i - 1) as usize } else { 0usize },
                None => usize::MAX,
            },
        ),
;

/// `ListState::scroll_down_by`: moves the selection down by `amount`,
/// saturating at `usize::MAX`; an absent selection counts as index 0.
pub assume_specification[ ListState::scroll_down_by ](state: &mut ListState, amount: u16)
    ensures
        list_selected(*final(state)) == Some(
            {
                let from = match list_selected(*old(state)) {
                    Some(i) => i,
                    None => 0usize,
                };
                if from + amount <= usize::MAX { (from + amount) as usize } else { usize::MAX }
            },
        ),
;

/// `ListState::scroll_up_by`: moves the selection up by `amount`,
/// saturating at 0; an absent selection counts as index 0.
pub assume_specification[ ListState::scroll_up_by ](state: &mut ListState, amount: u16)
    ensures
        list_selected(*final(state)) == Some(
            {
                let from = match list_selected(*old(state)) {
                    Some(i) => i,
                    None => 0usize,
                };
                if from >= amount { (from - amount) as usize } else { 0usize }
            },
        ),
;

/// `ScrollbarState::default`: position 0 over content of length 0.
pub assume_specification[ <ScrollbarState as Default>::default ]() -> (r: ScrollbarState)
    ensures
        scrollbar_position(r) == 0,
        scrollbar_content_length(r) == 0,
;

/// `ScrollbarState::position`: the same state at the given position.
pub assume_specification[ ScrollbarState::position ](
    state: ScrollbarState,
    position: usize,
) -> (r: ScrollbarState)
    ensures
        scrollbar_position(r) == position,
        scrollbar_content_length(r) == scrollbar_content_length(state),
;

/// `ScrollbarState::content_length`: the same state over content of the
/// given length.
pub assume_specification[ ScrollbarState::content_length ](
    state: ScrollbarState,
    content_length: usize,
) -> (r: ScrollbarState)
    ensures
        scrollbar_content_length(r) == content_length,
        scrollbar_position(r) == scrollbar_position(state),
;

} // verus!
