//! What holds of moving between tabs and of closing them.
use crate::page::{
    index_after_close, next_index, pages_after_close, prev_index, selects, Action, InputView,
};
use vstd::prelude::*;

verus! {

/// One step between tabs.
pub enum Turn {
    Next,
    Prev,
}

/// The selection after one step.
pub open spec fn turned(len: nat, current: Option<usize>, turn: Turn) -> Option<usize> {
    match turn {
        Turn::Next => next_index(len, current),
        Turn::Prev => prev_index(len, current),
    }
}

/// The selection after the steps `turns`, taken in their order.
pub open spec fn walked(len: nat, current: Option<usize>, turns: Seq<Turn>) -> Option<usize>
    decreases turns.len(),
{
    if turns.len() == 0 {
        current
    } else {
        turned(len, walked(len, current, turns.drop_last()), turns.last())
    }
}

/// One step among at least one tab leaves a tab selected, also where none was
/// selected before.
pub proof fn lemma_turn_selects(len: nat, current: Option<usize>, turn: Turn)
    requires
        len >= 1,
        len <= usize::MAX,
        current matches Some(i) ==> i < len,
    ensures
        turned(len, current, turn) matches Some(j) && j < len,
{
}

/// However many steps are taken among at least one tab, forward and back in
/// any order, the selection stays at one of the tabs.
pub proof fn lemma_walk_selects(len: nat, current: Option<usize>, turns: Seq<Turn>)
    requires
        len >= 1,
        len <= usize::MAX,
        selects(len, current),
    ensures
        selects(len, walked(len, current, turns)),
    decreases turns.len(),
{
    if turns.len() > 0 {
        lemma_walk_selects(len, current, turns.drop_last());
        lemma_turn_selects(len, walked(len, current, turns.drop_last()), turns.last());
    }
}

/// A step forward and a step back, in either order, lead back to the tab from
/// which they started.
pub proof fn lemma_next_prev_return(len: nat, i: usize)
    requires
        i < len,
        len <= usize::MAX,
    ensures
        prev_index(len, next_index(len, Some(i))) == Some(i),
        next_index(len, prev_index(len, Some(i))) == Some(i),
{
}

/// Closing the only tab leaves no tab and no selection.
pub proof fn lemma_close_only_page<T>(pages: Seq<T>)
    requires
        pages.len() == 1,
    ensures
        pages_after_close(pages, Some(0usize)).len() == 0,
        index_after_close(pages.len(), Some(0usize)) is None,
{
}

/// Closing a tab that is not the last one keeps the selection at its place,
/// where the tab that stood behind the closed one now stands.
pub proof fn lemma_close_selects_follower<T>(pages: Seq<T>, i: usize)
    requires
        pages.len() > 1,
        i < pages.len() - 1,
    ensures
        index_after_close(pages.len(), Some(i)) == Some(i),
        pages_after_close(pages, Some(i)).len() == pages.len() - 1,
        pages_after_close(pages, Some(i))[i as int] == pages[i + 1],
{
}

/// Closing the last of several tabs selects the first one.
pub proof fn lemma_close_last_selects_first<T>(pages: Seq<T>)
    requires
        pages.len() > 1,
        pages.len() <= usize::MAX,
    ensures
        index_after_close(pages.len(), Some((pages.len() - 1) as usize)) == Some(0usize),
        pages_after_close(pages, Some((pages.len() - 1) as usize)) == pages.drop_last(),
{
    assert(pages.remove(pages.len() - 1) =~= pages.drop_last());
}

/// Closing the selected tab of a well-formed selection leaves a well-formed
/// selection.
pub proof fn lemma_close_selects<T>(pages: Seq<T>, current: Option<usize>)
    requires
        selects(pages.len(), current),
    ensures
        selects(
            pages_after_close(pages, current).len(),
            index_after_close(pages.len(), current),
        ),
{
}

/// Taking a character back from an empty text leaves the text empty, and the
/// user still typing for the same action.
pub proof fn lemma_erase_empty(action: Action, display: Seq<char>)
    ensures
        (InputView::EditAction { action, display, buffer: Seq::empty() }).erased() == (
        InputView::EditAction { action, display, buffer: Seq::empty() }),
{
}

/// Taking back the character that was typed last restores the text.
pub proof fn lemma_erase_typed(input: InputView, c: char)
    ensures
        input.typed(c).erased() == input,
{
    match input {
        InputView::EditAction { action, display, buffer } => {
            assert(buffer.push(c).drop_last() =~= buffer);
        },
        InputView::Normal => {},
    }
}

} // verus!
