use vstd::prelude::*;
use crate::store::{ItemStore, StoreModel};
use crate::input::{Key, KeyKind, Event, FormActions, Flow, is_quit_key, edited_draft, handle_add_new_key};

verus! {

/// Which view owns the keyboard. The text being typed for a new item lives
/// only while the add view has focus.
pub enum Focus {
    List,
    Add { draft: String },
}

/// `Focus` as reasoned about.
pub enum FocusModel {
    List,
    Add(Seq<char>),
}

impl View for Focus {
    type V = FocusModel;

    open spec fn view(&self) -> FocusModel {
        match self {
            Focus::List => FocusModel::List,
            Focus::Add { draft } => FocusModel::Add(draft@),
        }
    }
}

/// The whole session: the items and the focus.
pub struct AppModel {
    pub store: StoreModel,
    pub focus: FocusModel,
}

impl AppModel {
    /// The text being typed; empty outside the add view.
    pub open spec fn draft(self) -> Seq<char> {
        match self.focus {
            FocusModel::List => Seq::empty(),
            FocusModel::Add(d) => d,
        }
    }

    /// Focus handed to the add view, with a fresh, empty draft.
    pub open spec fn adding(self) -> AppModel {
        AppModel { store: self.store, focus: FocusModel::Add(Seq::empty()) }
    }

    /// Back to the list with the draft appended as a new item.
    pub open spec fn submitted(self) -> AppModel {
        AppModel { store: self.store.appended(self.draft()), focus: FocusModel::List }
    }

    /// Back to the list with the draft thrown away.
    pub open spec fn cancelled(self) -> AppModel {
        AppModel { store: self.store, focus: FocusModel::List }
    }

    /// The same focus over another list.
    pub open spec fn with_store(self, store: StoreModel) -> AppModel {
        AppModel { store, focus: self.focus }
    }

    /// The session after a key pressed in the list view.
    pub open spec fn after_list_key(self, key: Key) -> AppModel {
        match key {
            Key::Enter => self.with_store(self.store.toggled_selected()),
            Key::Down => self.with_store(self.store.moved_down()),
            Key::Up => self.with_store(self.store.moved_up()),
            Key::Char(c) => if c == 'j' {
                self.with_store(self.store.moved_down())
            } else if c == 'k' {
                self.with_store(self.store.moved_up())
            } else if c == 'D' {
                self.with_store(self.store.deleted_selected())
            } else if c == 'A' {
                self.adding()
            } else {
                self
            },
            _ => self,
        }
    }

    /// The session after a key pressed in the add view.
    pub open spec fn after_add_key(self, key: Key) -> AppModel {
        match key {
            Key::Esc => self.cancelled(),
            Key::Enter => self.submitted(),
            _ => AppModel { store: self.store, focus: FocusModel::Add(edited_draft(self.draft(), key)) },
        }
    }

    /// The session after a key press, routed by focus.
    pub open spec fn after_key(self, key: Key) -> AppModel {
        match self.focus {
            FocusModel::List => self.after_list_key(key),
            FocusModel::Add(_) => self.after_add_key(key),
        }
    }

    /// Whether a key press ends the session: only the list view quits.
    pub open spec fn quits_on(self, key: Key) -> bool {
        self.focus is List && is_quit_key(key)
    }

    /// The session after an event: only key presses count.
    pub open spec fn after_event(self, event: Event) -> AppModel {
        match event {
            Event::Key { key, kind: KeyKind::Press } => self.after_key(key),
            _ => self,
        }
    }

    /// Whether an event ends the session.
    pub open spec fn quits_on_event(self, event: Event) -> bool {
        match event {
            Event::Key { key, kind: KeyKind::Press } => self.quits_on(key),
            _ => false,
        }
    }
}

/// The state shared by rendering and input handling.
pub struct AppState {
    store: ItemStore,
    focus: Focus,
}

impl View for AppState {
    type V = AppModel;

    closed spec fn view(&self) -> AppModel {
        AppModel { store: self.store@, focus: self.focus@ }
    }
}

impl AppState {
    pub open spec fn wf(&self) -> bool {
        self@.store.wf()
    }

    /// A session over the given items, with the list focused.
    pub fn new(store: ItemStore) -> (r: AppState)
        requires
            store.wf(),
        ensures
            r.wf(),
            r@.store == store@,
            r@.focus == FocusModel::List,
    {
        AppState { store, focus: Focus::List }
    }

    /// A session with no items and the list focused.
    pub fn empty() -> (r: AppState)
        ensures
            r.wf(),
            r@.store.items.len() == 0,
            r@.store.selected is None,
            r@.focus == FocusModel::List,
    {
        AppState::new(ItemStore::new())
    }

    /// The items and the selection.
    pub fn store(&self) -> (r: &ItemStore)
        requires
            self.wf(),
        ensures
            r.wf(),
            r@ == self@.store,
    {
        &self.store
    }

    /// Which view has focus.
    pub fn focus(&self) -> (r: &Focus)
        ensures
            r@ == self@.focus,
    {
        &self.focus
    }

    /// Whether the add view has focus.
    pub fn is_adding(&self) -> (r: bool)
        ensures
            r <==> self@.focus is Add,
    {
        match self.focus {
            Focus::List => false,
            Focus::Add { .. } => true,
        }
    }

    /// The text being typed; empty while the list has focus.
    pub fn draft(&self) -> (r: &str)
        ensures
            r@ == self@.draft(),
    {
        match &self.focus {
            Focus::List => {
                proof {
                    reveal_strlit("");
                }
                ""
            },
            Focus::Add { draft } => draft.as_str(),
        }
    }

    /// Hands focus to the add view with an empty draft, whatever was typed
    /// before.
    pub fn enter_add(&mut self)
        requires
            old(self).wf(),
        ensures
            final(self).wf(),
            final(self)@ == old(self)@.adding(),
            final(self)@.draft() == Seq::<char>::empty(),
    {
        self.focus = Focus::Add { draft: String::new() };
    }

    /// Returns focus to the list and appends the draft as a new item.
    pub fn submit(&mut self)
        requires
            old(self).wf(),
            old(self)@.focus is Add,
        ensures
            final(self).wf(),
            final(self)@ == old(self)@.submitted(),
            final(self)@.draft() == Seq::<char>::empty(),
    {
        let mut focus = Focus::List;
        std::mem::swap(&mut focus, &mut self.focus);
        if let Focus::Add { draft } = focus {
            self.store.add(draft);
        }
    }

    /// Returns focus to the list and discards the draft.
    pub fn cancel(&mut self)
        requires
            old(self).wf(),
        ensures
            final(self).wf(),
            final(self)@ == old(self)@.cancelled(),
            final(self)@.draft() == Seq::<char>::empty(),
    {
        self.focus = Focus::List;
    }

    /// Handles a key pressed while the list has focus, and says whether it
    /// ends the session.
    pub fn handle_key(&mut self, key: Key) -> (quit: bool)
        requires
            old(self).wf(),
            old(self)@.focus is List,
        ensures
            final(self).wf(),
            final(self)@ == old(self)@.after_list_key(key),
            quit == is_quit_key(key),
    {
        match key {
            Key::Esc => {
                return true;
            },
            Key::Enter => self.store.toggle_selected(),
            Key::Down => self.store.select_next(),
            Key::Up => self.store.select_previous(),
            Key::Char(c) => {
                if c == 'q' {
                    return true;
                } else if c == 'j' {
                    self.store.select_next();
                } else if c == 'k' {
                    self.store.select_previous();
                } else if c == 'D' {
                    self.store.delete_selected();
                } else if c == 'A' {
                    self.enter_add();
                }
            },
            _ => {},
        }
        false
    }

    /// Handles a key pressed while the add view has focus: edits the draft,
    /// or submits or cancels the form.
    pub fn handle_add_key(&mut self, key: Key)
        requires
            old(self).wf(),
            old(self)@.focus is Add,
        ensures
            final(self).wf(),
            final(self)@ == old(self)@.after_add_key(key),
    {
        let action = match &mut self.focus {
            Focus::Add { draft } => handle_add_new_key(key, draft),
            Focus::List => FormActions::Editing,
        };
        match action {
            FormActions::Cancel => self.cancel(),
            FormActions::Submit => self.submit(),
            FormActions::Editing => {},
        }
    }

    /// One turn of the session: a key press goes to the view that has focus,
    /// every other event is ignored.
    pub fn handle_event(&mut self, event: Event) -> (flow: Flow)
        requires
            old(self).wf(),
        ensures
            final(self).wf(),
            final(self)@ == old(self)@.after_event(event),
            flow == (if old(self)@.quits_on_event(event) {
                Flow::Quit
            } else {
                Flow::Continue
            }),
    {
        match event {
            Event::Key { key, kind: KeyKind::Press } => {
                if self.is_adding() {
                    self.handle_add_key(key);
                    Flow::Continue
                } else if self.handle_key(key) {
                    Flow::Quit
                } else {
                    Flow::Continue
                }
            },
            _ => Flow::Continue,
        }
    }
}

} // verus!
