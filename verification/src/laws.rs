//! Laws of the transition function: properties that hold of every model,
//! stated over the mathematical transition `step` and proved once and for
//! all.

use vstd::prelude::*;
use crate::model::{command_consistent, Filter, ItemV, MessageV, TodoV};
use crate::text::trim_spec;
use crate::update::{all_complete, step, step_cmds};
use crate::view::{edit_at, filter_pred, row_view, rows_view, visible_items};

verus! {

/// Adding after typing: setting the pending input to `s` and then adding
/// appends exactly one item, whose text is `s` trimmed and which is not
/// complete, and leaves the pending input empty; the other state is kept.
pub proof fn lemma_update_pending_then_add(m: TodoV, s: Seq<char>)
    ensures
        ({
            let m2 = step(step(m, MessageV::UpdatePending(s)), MessageV::AddTodo);
            &&& m2.items == m.items.push(ItemV { text: trim_spec(s), is_complete: false })
            &&& m2.pending_item.len() == 0
            &&& m2.pending_edit == m.pending_edit
            &&& m2.filter == m.filter
        }),
{
}

/// Removing reduces the item count by exactly one and removes the item at
/// position `i`, preserving the order of the rest.
pub proof fn lemma_remove_todo(m: TodoV, i: int)
    requires
        0 <= i < m.items.len(),
    ensures
        ({
            let m2 = step(m, MessageV::RemoveTodo(i));
            &&& m2.items.len() == m.items.len() - 1
            &&& forall|j: int| 0 <= j < i ==> m2.items[j] == m.items[j]
            &&& forall|j: int| i <= j < m2.items.len() ==> m2.items[j] == m.items[j + 1]
            &&& m2.pending_item == m.pending_item
            &&& m2.filter == m.filter
        }),
{
}

/// Toggling flips exactly one item's completion flag and nothing else;
/// toggling the same position twice restores the model.
pub proof fn lemma_toggle_todo(m: TodoV, i: int)
    requires
        0 <= i < m.items.len(),
    ensures
        ({
            let m2 = step(m, MessageV::ToggleTodo(i));
            &&& m2.items.len() == m.items.len()
            &&& m2.items[i].is_complete == !m.items[i].is_complete
            &&& m2.items[i].text == m.items[i].text
            &&& forall|j: int| 0 <= j < m.items.len() && j != i ==> m2.items[j] == m.items[j]
        }),
        step(step(m, MessageV::ToggleTodo(i)), MessageV::ToggleTodo(i)) == m,
{
    let m2 = step(m, MessageV::ToggleTodo(i));
    let m3 = step(m2, MessageV::ToggleTodo(i));
    assert forall|j: int| 0 <= j < m.items.len() implies m3.items[j] == m.items[j] by {
        assert(m3.items[j] =~= m.items[j]);
    }
    assert(m3.items =~= m.items);
    assert(m3 =~= m);
}

/// Editing an item, replacing the draft with `t`, and saving commits the
/// trimmed draft as that item's text (when the trimmed draft is not
/// empty), leaves every other item unchanged, and clears the pending edit.
pub proof fn lemma_edit_update_save(m: TodoV, i: int, t: Seq<char>)
    requires
        0 <= i < m.items.len(),
        trim_spec(t).len() > 0,
    ensures
        ({
            let m3 = step(
                step(step(m, MessageV::EditTodo(i)), MessageV::UpdateEdit(t)),
                MessageV::SaveEdit,
            );
            &&& m3.items.len() == m.items.len()
            &&& m3.items[i].text == trim_spec(t)
            &&& m3.items[i].is_complete == m.items[i].is_complete
            &&& forall|j: int| 0 <= j < m.items.len() && j != i ==> m3.items[j] == m.items[j]
            &&& m3.pending_edit is None
        }),
{
}

/// Editing an item, emptying the draft, and saving removes that item
/// entirely and clears the pending edit.
pub proof fn lemma_edit_save_empty(m: TodoV, i: int, t: Seq<char>)
    requires
        0 <= i < m.items.len(),
        trim_spec(t).len() == 0,
    ensures
        ({
            let m3 = step(
                step(step(m, MessageV::EditTodo(i)), MessageV::UpdateEdit(t)),
                MessageV::SaveEdit,
            );
            &&& m3.items == m.items.remove(i)
            &&& m3.pending_edit is None
        }),
{
}

/// Editing an item and aborting leaves every item - in particular the
/// edited one's text - unchanged and clears the pending edit.
pub proof fn lemma_edit_abort(m: TodoV, i: int, t: Seq<char>)
    requires
        0 <= i < m.items.len(),
    ensures
        ({
            let m3 = step(
                step(step(m, MessageV::EditTodo(i)), MessageV::UpdateEdit(t)),
                MessageV::AbortEdit,
            );
            &&& m3.items == m.items
            &&& m3.pending_edit is None
            &&& m3.pending_item == m.pending_item
            &&& m3.filter == m.filter
        }),
{
}

/// Clearing completed retains exactly the items that are not complete, in
/// their original order: the result is the order-preserving filter of the
/// items, every retained item is incomplete, and every incomplete item is
/// retained.
pub proof fn lemma_clear_completed(m: TodoV)
    ensures
        ({
            let m2 = step(m, MessageV::ClearCompleted);
            &&& m2.items == m.items.filter(|it: ItemV| !it.is_complete)
            &&& forall|j: int| 0 <= j < m2.items.len() ==> !m2.items[j].is_complete
            &&& forall|j: int|
                0 <= j < m.items.len() && !m.items[j].is_complete ==> m2.items.contains(
                    m.items[j],
                )
        }),
{
    let pred = |it: ItemV| !it.is_complete;
    let m2 = step(m, MessageV::ClearCompleted);
    assert forall|j: int| 0 <= j < m2.items.len() implies !m2.items[j].is_complete by {
        m.items.lemma_filter_pred(pred, j);
    }
    assert forall|j: int|
        0 <= j < m.items.len() && !m.items[j].is_complete implies m2.items.contains(
        m.items[j],
    ) by {
        m.items.lemma_filter_contains(pred, j);
    }
}

/// A toggle-all on a list that is not all complete sets every item
/// complete, and on an all-complete list sets every item incomplete; item
/// texts are never changed.
pub proof fn lemma_toggle_all(m: TodoV)
    ensures
        ({
            let m2 = step(m, MessageV::ToggleAll);
            &&& m2.items.len() == m.items.len()
            &&& forall|j: int| 0 <= j < m.items.len() ==> m2.items[j].text == m.items[j].text
            &&& !all_complete(m.items) ==> all_complete(m2.items)
            &&& all_complete(m.items) ==> forall|j: int|
                0 <= j < m2.items.len() ==> !m2.items[j].is_complete
        }),
{
}

/// Two toggle-alls in a row keep every text and leave every completion
/// flag equal to "all items were complete at the start". They restore the
/// model exactly when the items started uniformly complete or uniformly
/// incomplete; a mixed list ends all incomplete instead.
pub proof fn lemma_toggle_all_twice(m: TodoV)
    ensures
        ({
            let m3 = step(step(m, MessageV::ToggleAll), MessageV::ToggleAll);
            &&& m3.items.len() == m.items.len()
            &&& forall|j: int|
                0 <= j < m.items.len() ==> m3.items[j] == (ItemV {
                    text: m.items[j].text,
                    is_complete: all_complete(m.items),
                })
        }),
        (all_complete(m.items) || (forall|j: int|
            0 <= j < m.items.len() ==> !m.items[j].is_complete)) ==> step(
            step(m, MessageV::ToggleAll),
            MessageV::ToggleAll,
        ) == m,
{
    let m2 = step(m, MessageV::ToggleAll);
    let m3 = step(m2, MessageV::ToggleAll);
    if all_complete(m.items) || (forall|j: int|
        0 <= j < m.items.len() ==> !m.items[j].is_complete) {
        assert forall|j: int| 0 <= j < m.items.len() implies m3.items[j] == m.items[j] by {
            assert(m3.items[j] =~= m.items[j]);
        }
        assert(m3.items =~= m.items);
        assert(m3 =~= m);
    }
}

/// Selecting a filter never changes the stored items, the pending input,
/// or the pending edit: it changes the filter field alone.
pub proof fn lemma_show_filter(m: TodoV)
    ensures
        step(m, MessageV::ShowAll) == (TodoV { filter: Filter::All, ..m }),
        step(m, MessageV::ShowActive) == (TodoV { filter: Filter::Active, ..m }),
        step(m, MessageV::ShowCompleted) == (TodoV { filter: Filter::Completed, ..m }),
{
}

/// Every command a transition schedules pairs its effect with exactly the
/// message variant that effect's handler expects, so a handler's check of
/// its message never fails.
pub proof fn lemma_commands_consistent(msg: MessageV)
    ensures
        forall|j: int|
            0 <= j < step_cmds(msg).len() ==> command_consistent(#[trigger] step_cmds(msg)[j]),
{
}

/// The rendered visible subset matches the filter's predicate exactly:
/// every visible item satisfies it, every stored item satisfying it is
/// shown, order is the stored order, and the list section holds exactly
/// one row per visible item.
pub proof fn lemma_visible_matches_filter(m: TodoV)
    ensures
        forall|j: int|
            0 <= j < visible_items(m).len() ==> filter_pred(
                m.filter,
                #[trigger] visible_items(m)[j],
            ),
        forall|j: int|
            0 <= j < m.items.len() && filter_pred(m.filter, m.items[j])
                ==> visible_items(m).contains(m.items[j]),
        rows_view(m).len() == visible_items(m).len(),
        forall|j: int|
            0 <= j < visible_items(m).len() ==> (#[trigger] rows_view(m)[j]) == row_view(
                j,
                visible_items(m)[j],
                edit_at(m, j),
            ),
{
    let pred = |it: ItemV| filter_pred(m.filter, it);
    assert forall|j: int| 0 <= j < visible_items(m).len() implies filter_pred(
        m.filter,
        #[trigger] visible_items(m)[j],
    ) by {
        m.items.lemma_filter_pred(pred, j);
    }
    assert forall|j: int|
        0 <= j < m.items.len() && filter_pred(m.filter, m.items[j]) implies visible_items(
        m,
    ).contains(m.items[j]) by {
        m.items.lemma_filter_contains(pred, j);
    }
}

} // verus!
