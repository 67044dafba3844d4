use vstd::prelude::*;
use crate::store::{ItemModel, TodoItem};
use crate::state::{AppState, FocusModel};

verus! {

/// How a region's border is drawn: distinguished when its view has focus,
/// muted otherwise.
#[derive(Clone, Copy, Debug, PartialEq, Eq, Structural)]
pub enum Emphasis {
    Focused,
    Muted,
}

/// One line of the list region: a title, struck through when done.
pub struct ListLine {
    pub title: String,
    pub crossed_out: bool,
}

/// What the list region shows.
pub struct ListViewPlan {
    pub emphasis: Emphasis,
    pub lines: Vec<ListLine>,
    pub selected: Option<usize>,
}

/// What the add region shows.
pub struct AddViewPlan {
    pub emphasis: Emphasis,
    pub text: String,
}

/// The emphasis of a region that has focus or not.
pub open spec fn emphasis_of(focused: bool) -> Emphasis {
    if focused {
        Emphasis::Focused
    } else {
        Emphasis::Muted
    }
}

/// Whether a line shows this item: same title, struck through exactly when done.
pub open spec fn shows(line: ListLine, item: ItemModel) -> bool {
    line.title@ == item.title && line.crossed_out == item.completed
}

fn emphasis(focused: bool) -> (r: Emphasis)
    ensures
        r == emphasis_of(focused),
{
    if focused {
        Emphasis::Focused
    } else {
        Emphasis::Muted
    }
}

/// The list region of a frame: every item in order, the selection to
/// highlight, and a distinguished border while the list has focus.
pub fn list_view(state: &AppState) -> (r: ListViewPlan)
    requires
        state.wf(),
    ensures
        r.emphasis == emphasis_of(state@.focus is List),
        r.lines@.len() == state@.store.items.len(),
        forall|i: int| 0 <= i < r.lines@.len() ==> shows(#[trigger] r.lines@[i], state@.store.items[i]),
        match r.selected {
            Some(i) => state@.store.selected == Some(i as int),
            None => state@.store.selected is None,
        },
{
    let store = state.store();
    let items: &Vec<TodoItem> = store.items();
    let mut lines: Vec<ListLine> = Vec::new();
    let mut k: usize = 0;
    while k < items.len()
        invariant
            k <= items@.len(),
            items@.map_values(|t: TodoItem| t@) == state@.store.items,
            lines@.len() == k,
            forall|i: int| 0 <= i < k ==> shows(#[trigger] lines@[i], state@.store.items[i]),
        decreases items@.len() - k,
    {
        let item = &items[k];
        lines.push(ListLine { title: item.title.clone(), crossed_out: item.completed });
        k = k + 1;
    }
    ListViewPlan { emphasis: emphasis(!state.is_adding()), lines, selected: store.selected() }
}

/// The add region of a frame: the draft as typed, and a distinguished
/// border while the add view has focus.
pub fn add_view(state: &AppState) -> (r: AddViewPlan)
    ensures
        r.emphasis == emphasis_of(state@.focus is Add),
        r.text@ == state@.draft(),
{
    AddViewPlan { emphasis: emphasis(state.is_adding()), text: state.draft().to_owned() }
}

} // verus!
