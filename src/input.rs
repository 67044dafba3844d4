use vstd::prelude::*;

verus! {

/// A key as the dispatcher sees it.
#[derive(Clone, Copy, Debug, PartialEq, Eq, Structural)]
pub enum Key {
    Esc,
    Enter,
    Up,
    Down,
    Backspace,
    Char(char),
    Other,
}

/// Whether a key went down, repeated while held, or came up.
#[derive(Clone, Copy, Debug, PartialEq, Eq, Structural)]
pub enum KeyKind {
    Press,
    Repeat,
    Release,
}

/// One input event from the terminal.
#[derive(Clone, Copy, Debug, PartialEq, Eq, Structural)]
pub enum Event {
    Key { key: Key, kind: KeyKind },
    Resize,
    Other,
}

/// What a key typed into the add view asks of the focus controller.
#[derive(Clone, Copy, Debug, PartialEq, Eq, Structural)]
pub enum FormActions {
    Editing,
    Submit,
    Cancel,
}

/// Whether the session goes on after an event.
#[derive(Clone, Copy, Debug, PartialEq, Eq, Structural)]
pub enum Flow {
    Continue,
    Quit,
}

/// The keys that end the session from the list view.
pub open spec fn is_quit_key(key: Key) -> bool {
    key == Key::Esc || key == Key::Char('q')
}

/// The request a key makes of the add view's form.
pub open spec fn form_action(key: Key) -> FormActions {
    match key {
        Key::Esc => FormActions::Cancel,
        Key::Enter => FormActions::Submit,
        _ => FormActions::Editing,
    }
}

/// The draft after a key: a character is appended, backspace drops the last
/// one if there is any, and every other key leaves it alone.
pub open spec fn edited_draft(draft: Seq<char>, key: Key) -> Seq<char> {
    match key {
        Key::Char(c) => draft.push(c),
        Key::Backspace => if draft.len() > 0 {
            draft.drop_last()
        } else {
            draft
        },
        _ => draft,
    }
}

/// Relies on String::push: the character is appended at the end.
#[verifier::external_body]
fn push_char(s: &mut String, c: char)
    ensures
        final(s)@ == old(s)@.push(c),
{
    s.push(c)
}

/// Relies on String::pop: the last character is removed and returned, and an
/// empty string is left as it is and gives nothing.
#[verifier::external_body]
fn pop_char(s: &mut String) -> (r: Option<char>)
    ensures
        old(s)@.len() == 0 ==> r is None && final(s)@ == old(s)@,
        old(s)@.len() > 0 ==> r == Some(old(s)@.last()) && final(s)@ == old(s)@.drop_last(),
{
    s.pop()
}

/// Applies a key typed into the add view to its draft, and says whether the
/// key submits or cancels the form.
pub fn handle_add_new_key(key: Key, draft: &mut String) -> (r: FormActions)
    ensures
        r == form_action(key),
        final(draft)@ == edited_draft(old(draft)@, key),
{
    match key {
        Key::Esc => FormActions::Cancel,
        Key::Enter => FormActions::Submit,
        Key::Char(c) => {
            push_char(draft, c);
            FormActions::Editing
        },
        Key::Backspace => {
            let _ = pop_char(draft);
            FormActions::Editing
        },
        _ => FormActions::Editing,
    }
}

} // verus!
