use ratta::input::{handle_add_new_key, Event, Flow, FormActions, Key, KeyKind};
use ratta::render::{add_view, list_view, Emphasis};
use ratta::state::{AppState, Focus};
use ratta::store::ItemStore;

fn press(app: &mut AppState, key: Key) -> Flow {
    app.handle_event(Event::Key { key, kind: KeyKind::Press })
}

fn type_text(app: &mut AppState, text: &str) {
    for c in text.chars() {
        assert_eq!(press(app, Key::Char(c)), Flow::Continue);
    }
}

fn titles(app: &AppState) -> Vec<String> {
    app.store().items().iter().map(|t| t.title.clone()).collect()
}

fn two_items() -> AppState {
    let mut store = ItemStore::new();
    store.add("Buy milk".to_string());
    store.add("Walk dog".to_string());
    AppState::new(store)
}

#[test]
fn select_toggle_delete_scenario() {
    let mut app = two_items();
    assert_eq!(app.store().selected(), Some(0));
    assert_eq!(press(&mut app, Key::Char('j')), Flow::Continue);
    assert_eq!(app.store().selected(), Some(1));
    press(&mut app, Key::Enter);
    assert!(app.store().items()[1].completed);
    assert!(!app.store().items()[0].completed);
    press(&mut app, Key::Char('D'));
    assert_eq!(titles(&app), vec!["Buy milk".to_string()]);
    assert_eq!(app.store().selected(), Some(0));
}

#[test]
fn add_item_scenario() {
    let mut app = two_items();
    press(&mut app, Key::Char('A'));
    assert!(app.is_adding());
    type_text(&mut app, "Clean house");
    assert_eq!(app.draft(), "Clean house");
    press(&mut app, Key::Enter);
    assert!(!app.is_adding());
    assert!(matches!(app.focus(), Focus::List));
    assert_eq!(titles(&app), vec!["Buy milk", "Walk dog", "Clean house"]);
    assert!(!app.store().items()[2].completed);
    assert_eq!(app.draft(), "");
}

#[test]
fn cancel_add_scenario() {
    let mut app = two_items();
    press(&mut app, Key::Char('A'));
    type_text(&mut app, "xyz");
    press(&mut app, Key::Esc);
    assert!(!app.is_adding());
    assert_eq!(titles(&app), vec!["Buy milk", "Walk dog"]);
    assert_eq!(app.draft(), "");
    assert_eq!(app.store().selected(), Some(0));
}

#[test]
fn empty_list_scenario() {
    let mut app = AppState::empty();
    assert_eq!(press(&mut app, Key::Char('D')), Flow::Continue);
    assert_eq!(app.store().len(), 0);
    assert_eq!(app.store().selected(), None);
    press(&mut app, Key::Char('j'));
    assert_eq!(app.store().selected(), None);
    press(&mut app, Key::Char('k'));
    assert_eq!(app.store().selected(), None);
    press(&mut app, Key::Enter);
    assert_eq!(app.store().len(), 0);
}

#[test]
fn down_then_up_returns_to_start() {
    let mut store = ItemStore::new();
    for t in ["a", "b", "c", "d", "e"] {
        store.add(t.to_string());
    }
    store.select_next();
    assert_eq!(store.selected(), Some(1));
    for _ in 0..3 {
        store.select_next();
    }
    for _ in 0..3 {
        store.select_previous();
    }
    assert_eq!(store.selected(), Some(1));
}

#[test]
fn navigation_is_clamped_at_both_ends() {
    let mut store = ItemStore::new();
    store.add("a".to_string());
    store.add("b".to_string());
    store.select_previous();
    assert_eq!(store.selected(), Some(0));
    for _ in 0..5 {
        store.select_next();
    }
    assert_eq!(store.selected(), Some(1));
    for _ in 0..5 {
        store.select_previous();
    }
    assert_eq!(store.selected(), Some(0));
}

#[test]
fn arrow_keys_move_like_j_and_k() {
    let mut app = two_items();
    press(&mut app, Key::Down);
    assert_eq!(app.store().selected(), Some(1));
    press(&mut app, Key::Up);
    assert_eq!(app.store().selected(), Some(0));
}

#[test]
fn deleting_middle_selects_next_item() {
    let mut store = ItemStore::new();
    for t in ["a", "b", "c"] {
        store.add(t.to_string());
    }
    store.select_next();
    store.delete_selected();
    assert_eq!(store.selected(), Some(1));
    assert_eq!(store.items()[1].title, "c");
}

#[test]
fn deleting_last_selects_new_last() {
    let mut store = ItemStore::new();
    for t in ["a", "b", "c"] {
        store.add(t.to_string());
    }
    store.select_next();
    store.select_next();
    store.delete_selected();
    assert_eq!(store.selected(), Some(1));
    assert_eq!(store.items()[1].title, "b");
}

#[test]
fn deleting_sole_item_clears_selection() {
    let mut store = ItemStore::new();
    store.add("only".to_string());
    store.delete_selected();
    assert_eq!(store.len(), 0);
    assert_eq!(store.selected(), None);
    store.add("again".to_string());
    assert_eq!(store.selected(), Some(0));
}

#[test]
fn delete_and_toggle_out_of_range_do_nothing() {
    let mut store = ItemStore::new();
    store.add("a".to_string());
    store.toggle(3);
    store.delete(3);
    assert_eq!(store.len(), 1);
    assert!(!store.items()[0].completed);
    assert_eq!(store.selected(), Some(0));
}

#[test]
fn toggle_twice_restores_completion() {
    let mut app = two_items();
    press(&mut app, Key::Enter);
    assert!(app.store().items()[0].completed);
    press(&mut app, Key::Enter);
    assert!(!app.store().items()[0].completed);
}

#[test]
fn entering_add_discards_leftover_text() {
    let mut app = two_items();
    press(&mut app, Key::Char('A'));
    type_text(&mut app, "left");
    press(&mut app, Key::Esc);
    press(&mut app, Key::Char('A'));
    assert_eq!(app.draft(), "");
    app.cancel();
    app.enter_add();
    assert_eq!(app.draft(), "");
}

#[test]
fn empty_title_is_accepted() {
    let mut app = two_items();
    press(&mut app, Key::Char('A'));
    press(&mut app, Key::Enter);
    assert_eq!(titles(&app), vec!["Buy milk", "Walk dog", ""]);
}

#[test]
fn title_is_kept_literally() {
    let mut app = AppState::empty();
    press(&mut app, Key::Char('A'));
    type_text(&mut app, "  spaced  ");
    press(&mut app, Key::Enter);
    assert_eq!(titles(&app), vec!["  spaced  "]);
    assert_eq!(app.store().selected(), Some(0));
}

#[test]
fn backspace_edits_draft() {
    let mut app = AppState::empty();
    press(&mut app, Key::Char('A'));
    type_text(&mut app, "ab");
    press(&mut app, Key::Backspace);
    assert_eq!(app.draft(), "a");
    press(&mut app, Key::Backspace);
    press(&mut app, Key::Backspace);
    assert_eq!(app.draft(), "");
}

#[test]
fn handle_add_new_key_reports_actions() {
    let mut draft = String::from("hé");
    assert_eq!(handle_add_new_key(Key::Char('!'), &mut draft), FormActions::Editing);
    assert_eq!(draft, "hé!");
    assert_eq!(handle_add_new_key(Key::Backspace, &mut draft), FormActions::Editing);
    assert_eq!(handle_add_new_key(Key::Backspace, &mut draft), FormActions::Editing);
    assert_eq!(draft, "h");
    assert_eq!(handle_add_new_key(Key::Up, &mut draft), FormActions::Editing);
    assert_eq!(handle_add_new_key(Key::Enter, &mut draft), FormActions::Submit);
    assert_eq!(handle_add_new_key(Key::Esc, &mut draft), FormActions::Cancel);
    assert_eq!(draft, "h");
}

#[test]
fn quit_keys_only_quit_from_list() {
    let mut app = two_items();
    assert_eq!(press(&mut app, Key::Char('q')), Flow::Quit);
    assert_eq!(press(&mut app, Key::Esc), Flow::Quit);
    press(&mut app, Key::Char('A'));
    assert_eq!(press(&mut app, Key::Char('q')), Flow::Continue);
    assert_eq!(app.draft(), "q");
    assert_eq!(press(&mut app, Key::Esc), Flow::Continue);
    assert!(!app.is_adding());
}

#[test]
fn non_press_events_are_ignored() {
    let mut app = two_items();
    let r = app.handle_event(Event::Key { key: Key::Char('j'), kind: KeyKind::Release });
    assert_eq!(r, Flow::Continue);
    app.handle_event(Event::Key { key: Key::Char('q'), kind: KeyKind::Repeat });
    app.handle_event(Event::Resize);
    app.handle_event(Event::Other);
    assert_eq!(app.store().selected(), Some(0));
}

#[test]
fn other_keys_are_ignored_in_list() {
    let mut app = two_items();
    assert!(!app.handle_key(Key::Char('x')));
    assert!(!app.handle_key(Key::Other));
    assert!(!app.handle_key(Key::Backspace));
    assert_eq!(titles(&app), vec!["Buy milk", "Walk dog"]);
    assert_eq!(app.store().selected(), Some(0));
    assert!(app.handle_key(Key::Char('q')));
}

#[test]
fn render_plan_follows_focus() {
    let mut app = two_items();
    press(&mut app, Key::Char('j'));
    press(&mut app, Key::Enter);
    let list = list_view(&app);
    assert_eq!(list.emphasis, Emphasis::Focused);
    assert_eq!(list.selected, Some(1));
    assert_eq!(list.lines.len(), 2);
    assert_eq!(list.lines[0].title, "Buy milk");
    assert!(!list.lines[0].crossed_out);
    assert_eq!(list.lines[1].title, "Walk dog");
    assert!(list.lines[1].crossed_out);
    assert_eq!(add_view(&app).emphasis, Emphasis::Muted);
    assert_eq!(add_view(&app).text, "");

    press(&mut app, Key::Char('A'));
    type_text(&mut app, "new");
    assert_eq!(list_view(&app).emphasis, Emphasis::Muted);
    let add = add_view(&app);
    assert_eq!(add.emphasis, Emphasis::Focused);
    assert_eq!(add.text, "new");
}
