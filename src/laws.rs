use vstd::prelude::*;
use crate::store::StoreModel;
use crate::state::{AppModel, FocusModel};
use crate::input::Key;

verus! {

/// Moving down `n` times from position `i` lands on `i + n`, held at the last item.
proof fn moved_down_times_lands(m: StoreModel, n: nat)
    requires
        m.wf(),
        m.selected is Some,
    ensures
        ({
            let i = m.selected->0;
            let r = m.moved_down_times(n);
            &&& r.items == m.items
            &&& r.selected == Some(if i + n < m.items.len() { i + n } else { m.items.len() - 1 })
        }),
    decreases n,
{
    if n > 0 {
        moved_down_times_lands(m, (n - 1) as nat);
    }
}

/// Moving up `n` times from position `i` lands on `i - n`, held at the first item.
proof fn moved_up_times_lands(m: StoreModel, n: nat)
    requires
        m.wf(),
        m.selected is Some,
    ensures
        ({
            let i = m.selected->0;
            let r = m.moved_up_times(n);
            &&& r.items == m.items
            &&& r.selected == Some(if i - n > 0 { i - n } else { 0 })
        }),
    decreases n,
{
    if n > 0 {
        moved_up_times_lands(m, (n - 1) as nat);
    }
}

/// Moving the selection down `n` times and then up `n` times from position
/// `i` ends on `max(min(i + n, last) - n, 0)`: the selection never leaves the
/// list, and the store stays well formed.
pub proof fn down_then_up_stays_in_list(m: StoreModel, n: nat)
    requires
        m.wf(),
    ensures
        m.moved_down_times(n).moved_up_times(n).wf(),
        m.moved_down_times(n).moved_up_times(n).items == m.items,
        m.selected is None ==> m.moved_down_times(n).moved_up_times(n) == m,
        m.selected is Some ==> ({
            let i = m.selected->0;
            let last = m.items.len() - 1;
            let low = if i + n < last { i + n } else { last };
            m.moved_down_times(n).moved_up_times(n).selected == Some(
                if low - n > 0 { low - n } else { 0 },
            )
        }),
{
    if m.selected is Some {
        moved_down_times_lands(m, n);
        moved_up_times_lands(m.moved_down_times(n), n);
    } else {
        none_stays_put(m, n);
    }
}

proof fn none_stays_put(m: StoreModel, n: nat)
    requires
        m.selected is None,
    ensures
        m.moved_down_times(n) == m,
        m.moved_up_times(n) == m,
    decreases n,
{
    if n > 0 {
        none_stays_put(m, (n - 1) as nat);
    }
}

/// Moving the selection down `n` times and then up `n` times returns to
/// where it started, whenever the way down does not reach past the last item.
pub proof fn down_then_up_returns(m: StoreModel, n: nat)
    requires
        m.wf(),
        m.selected is Some,
        m.selected->0 + n < m.items.len(),
    ensures
        m.moved_down_times(n).moved_up_times(n) == m,
{
    down_then_up_stays_in_list(m, n);
}

/// Deleting the selected item of a list of two or more leaves the selection
/// on the item that came right after it, or on the new last item when the
/// deleted one was last; deleting the only item leaves nothing selected.
pub proof fn delete_selected_moves_to_next(m: StoreModel)
    requires
        m.wf(),
        m.selected is Some,
    ensures
        ({
            let i = m.selected->0;
            let n = m.items.len();
            let r = m.deleted_selected();
            &&& r.wf()
            &&& r.items == m.items.remove(i)
            &&& n == 1 ==> r.selected is None
            &&& i + 1 < n ==> r.selected == Some(i) && r.items[i] == m.items[i + 1]
            &&& n > 1 && i + 1 == n ==> r.selected == Some(n - 2) && r.items[n - 2] == m.items[n - 2]
        }),
{
}

/// Toggling the same item twice gives back the original list, whether or
/// not the position holds an item.
pub proof fn toggle_twice_restores(m: StoreModel, index: int)
    ensures
        m.toggled(index).toggled(index) == m,
{
    if 0 <= index < m.items.len() {
        assert(m.toggled(index).toggled(index).items =~= m.items);
    }
}

/// Toggling the selected item twice gives back the original list.
pub proof fn toggle_selected_twice_restores(m: StoreModel)
    ensures
        m.toggled_selected().toggled_selected() == m,
{
    if let Some(i) = m.selected {
        toggle_twice_restores(m, i);
    }
}

/// Entering the add view from the list always starts from an empty draft,
/// whatever was typed the last time.
pub proof fn entering_add_starts_empty(m: AppModel)
    requires
        m.focus is List,
    ensures
        m.after_key(Key::Char('A')).focus == FocusModel::Add(Seq::<char>::empty()),
        m.after_key(Key::Char('A')).store == m.store,
{
}

/// Leaving the add view, by submitting or by cancelling, leaves no draft
/// behind; cancelling keeps the items as they were.
pub proof fn leaving_add_clears_draft(m: AppModel)
    requires
        m.focus is Add,
    ensures
        m.after_key(Key::Enter).focus == FocusModel::List,
        m.after_key(Key::Enter).draft() == Seq::<char>::empty(),
        m.after_key(Key::Enter).store == m.store.appended(m.draft()),
        m.after_key(Key::Esc).focus == FocusModel::List,
        m.after_key(Key::Esc).draft() == Seq::<char>::empty(),
        m.after_key(Key::Esc).store == m.store,
{
}

/// On an empty list, deleting and moving the selection change nothing.
pub proof fn empty_list_keys_do_nothing(m: AppModel)
    requires
        m.store.wf(),
        m.store.items.len() == 0,
        m.focus is List,
    ensures
        m.after_key(Key::Char('D')) == m,
        m.after_key(Key::Char('j')) == m,
        m.after_key(Key::Char('k')) == m,
        m.after_key(Key::Down) == m,
        m.after_key(Key::Up) == m,
        m.after_key(Key::Enter) == m,
{
}

} // verus!
