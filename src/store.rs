use vstd::prelude::*;

verus! {

/// A todo entry as reasoned about: its title and whether it is done.
pub struct ItemModel {
    pub title: Seq<char>,
    pub completed: bool,
}

/// A todo entry.
pub struct TodoItem {
    pub title: String,
    pub completed: bool,
}

impl View for TodoItem {
    type V = ItemModel;

    open spec fn view(&self) -> ItemModel {
        ItemModel { title: self.title@, completed: self.completed }
    }
}

/// The selection after the list shrank or grew to `len` items: kept where it
/// is still valid, else moved to the last item; absent on an empty list, and
/// on the first item once a list that had none selected holds one.
pub open spec fn clamp_selection(sel: Option<int>, len: nat) -> Option<int> {
    if len == 0 {
        None
    } else {
        match sel {
            Some(i) => Some(if i < len { i } else { len - 1 }),
            None => Some(0),
        }
    }
}

/// The ordered items and the selected position.
pub struct StoreModel {
    pub items: Seq<ItemModel>,
    pub selected: Option<int>,
}

impl StoreModel {
    /// The selection is absent exactly when there are no items, and
    /// otherwise names one of them.
    pub open spec fn wf(self) -> bool {
        match self.selected {
            None => self.items.len() == 0,
            Some(i) => 0 <= i < self.items.len(),
        }
    }

    /// A new, not yet completed item with this title at the end.
    pub open spec fn appended(self, title: Seq<char>) -> StoreModel {
        let items = self.items.push(ItemModel { title, completed: false });
        StoreModel { items, selected: clamp_selection(self.selected, items.len()) }
    }

    /// The item at `index` with its completion flipped; nothing changes when
    /// there is no such item.
    pub open spec fn toggled(self, index: int) -> StoreModel {
        if 0 <= index < self.items.len() {
            let it = self.items[index];
            StoreModel {
                items: self.items.update(index, ItemModel { title: it.title, completed: !it.completed }),
                selected: self.selected,
            }
        } else {
            self
        }
    }

    /// The item at `index` removed and the selection re-derived; nothing
    /// changes when there is no such item.
    pub open spec fn deleted(self, index: int) -> StoreModel {
        if 0 <= index < self.items.len() {
            let items = self.items.remove(index);
            StoreModel { items, selected: clamp_selection(self.selected, items.len()) }
        } else {
            self
        }
    }

    /// The selection one item further down, held at the last item.
    pub open spec fn moved_down(self) -> StoreModel {
        match self.selected {
            Some(i) => StoreModel {
                items: self.items,
                selected: Some(if i + 1 < self.items.len() { i + 1 } else { i }),
            },
            None => self,
        }
    }

    /// The selection one item further up, held at the first item.
    pub open spec fn moved_up(self) -> StoreModel {
        match self.selected {
            Some(i) => StoreModel { items: self.items, selected: Some(if i > 0 { i - 1 } else { i }) },
            None => self,
        }
    }

    /// `moved_down` applied `n` times.
    pub open spec fn moved_down_times(self, n: nat) -> StoreModel
        decreases n,
    {
        if n == 0 {
            self
        } else {
            self.moved_down_times((n - 1) as nat).moved_down()
        }
    }

    /// `moved_up` applied `n` times.
    pub open spec fn moved_up_times(self, n: nat) -> StoreModel
        decreases n,
    {
        if n == 0 {
            self
        } else {
            self.moved_up_times((n - 1) as nat).moved_up()
        }
    }

    /// The selected item toggled, if there is one.
    pub open spec fn toggled_selected(self) -> StoreModel {
        match self.selected {
            Some(i) => self.toggled(i),
            None => self,
        }
    }

    /// The selected item deleted, if there is one.
    pub open spec fn deleted_selected(self) -> StoreModel {
        match self.selected {
            Some(i) => self.deleted(i),
            None => self,
        }
    }
}

/// The ordered todo entries and which of them is selected.
pub struct ItemStore {
    items: Vec<TodoItem>,
    selected: Option<usize>,
}

impl View for ItemStore {
    type V = StoreModel;

    closed spec fn view(&self) -> StoreModel {
        StoreModel {
            items: self.items@.map_values(|t: TodoItem| t@),
            selected: match self.selected {
                Some(i) => Some(i as int),
                None => None,
            },
        }
    }
}

impl ItemStore {
    pub open spec fn wf(&self) -> bool {
        self@.wf()
    }

    /// An empty store with nothing selected.
    pub fn new() -> (r: ItemStore)
        ensures
            r.wf(),
            r@.items == Seq::<ItemModel>::empty(),
            r@.selected is None,
    {
        let r = ItemStore { items: Vec::new(), selected: None };
        assert(r@.items =~= Seq::<ItemModel>::empty());
        r
    }

    /// The number of items.
    pub fn len(&self) -> (r: usize)
        ensures
            r == self@.items.len(),
    {
        self.items.len()
    }

    /// The selected position, if any.
    pub fn selected(&self) -> (r: Option<usize>)
        ensures
            match r {
                Some(i) => self@.selected == Some(i as int),
                None => self@.selected is None,
            },
    {
        self.selected
    }

    /// The items, in order.
    pub fn items(&self) -> (r: &Vec<TodoItem>)
        ensures
            r@.map_values(|t: TodoItem| t@) == self@.items,
    {
        &self.items
    }

    /// Appends a new item, not completed, with the given title. Any title is
    /// accepted, the empty one too. The first item added to an empty store
    /// becomes selected.
    pub fn add(&mut self, title: String)
        requires
            old(self).wf(),
        ensures
            final(self).wf(),
            final(self)@ == old(self)@.appended(title@),
    {
        self.items.push(TodoItem { title, completed: false });
        if self.selected.is_none() {
            self.selected = Some(0);
        }
        assert(self@.items =~= old(self)@.items.push(ItemModel { title: title@, completed: false }));
    }

    /// Flips the completion of the item at `index`; does nothing when there
    /// is no such item.
    pub fn toggle(&mut self, index: usize)
        requires
            old(self).wf(),
        ensures
            final(self).wf(),
            final(self)@ == old(self)@.toggled(index as int),
    {
        if index < self.items.len() {
            let done = self.items[index].completed;
            self.items[index].completed = !done;
            assert(self@.items =~= old(self)@.toggled(index as int).items);
        }
    }

    /// Removes the item at `index` and keeps the selection valid; does
    /// nothing when there is no such item.
    pub fn delete(&mut self, index: usize)
        requires
            old(self).wf(),
        ensures
            final(self).wf(),
            final(self)@ == old(self)@.deleted(index as int),
    {
        if index < self.items.len() {
            self.items.remove(index);
            let len = self.items.len();
            if len == 0 {
                self.selected = None;
            } else {
                match self.selected {
                    Some(i) => {
                        if i >= len {
                            self.selected = Some(len - 1);
                        }
                    },
                    None => {
                        self.selected = Some(0);
                    },
                }
            }
            assert(self@.items =~= old(self)@.items.remove(index as int));
        }
    }

    /// Moves the selection one item down, stopping at the last one.
    pub fn select_next(&mut self)
        requires
            old(self).wf(),
        ensures
            final(self).wf(),
            final(self)@ == old(self)@.moved_down(),
    {
        if let Some(i) = self.selected {
            assert(self@.items.len() == self.items.len());
            if i + 1 < self.items.len() {
                self.selected = Some(i + 1);
            }
        }
    }

    /// Moves the selection one item up, stopping at the first one.
    pub fn select_previous(&mut self)
        requires
            old(self).wf(),
        ensures
            final(self).wf(),
            final(self)@ == old(self)@.moved_up(),
    {
        if let Some(i) = self.selected {
            if i > 0 {
                self.selected = Some(i - 1);
            }
        }
    }

    /// Toggles the selected item, if any.
    pub fn toggle_selected(&mut self)
        requires
            old(self).wf(),
        ensures
            final(self).wf(),
            final(self)@ == old(self)@.toggled_selected(),
    {
        if let Some(i) = self.selected {
            self.toggle(i);
        }
    }

    /// Deletes the selected item, if any.
    pub fn delete_selected(&mut self)
        requires
            old(self).wf(),
        ensures
            final(self).wf(),
            final(self)@ == old(self)@.deleted_selected(),
    {
        if let Some(i) = self.selected {
            self.delete(i);
        }
    }
}

} // verus!
