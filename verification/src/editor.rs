use vstd::prelude::*;

use crate::keys::{KeyCode, KeyEvent, KeyModifiers};
use vstd::string::StringExecFns;

verus! {

/// A text editor shown in the details area: its title, the text it opens with, whether
/// it may change that text, and whether it has the focus. The text being edited lives in the
/// terminal's text area; this is what decides about it.
#[derive(Debug, PartialEq, Eq)]
pub struct Editor {
    pub title: String,
    pub text: String,
    pub readonly: bool,
    pub focused: bool,
}

/// An editor as the contracts see it.
pub struct EditorView {
    pub title: Seq<char>,
    pub text: Seq<char>,
    pub readonly: bool,
    pub focused: bool,
}

impl View for Editor {
    type V = EditorView;

    open spec fn view(&self) -> EditorView {
        EditorView { title: self.title@, text: self.text@, readonly: self.readonly, focused: self.focused }
    }
}

impl Clone for Editor {
    fn clone(&self) -> (e: Self)
        ensures
            e == *self,
    {
        Editor { title: self.title.clone(), text: self.text.clone(), readonly: self.readonly, focused: self.focused }
    }
}

/// The keys that move around in a read-only editor.
pub open spec fn is_navigation_key(code: KeyCode) -> bool {
    match code {
        KeyCode::Left | KeyCode::Right | KeyCode::Up | KeyCode::Down | KeyCode::Home | KeyCode::End
        | KeyCode::PageUp | KeyCode::PageDown | KeyCode::Esc => true,
        _ => false,
    }
}

/// The bracket that macOS types with `alt` and a digit, which the terminal reports as the digit.
pub open spec fn macos_bracket(c: char) -> Option<char> {
    if c == '5' {
        Some('[')
    } else if c == '6' {
        Some(']')
    } else if c == '8' {
        Some('{')
    } else if c == '9' {
        Some('}')
    } else {
        None
    }
}

/// The key an editor should see: on macOS, `alt` with 5, 6, 8 or 9 (and no other modifier)
/// is the bracket that the keyboard types; every other key stays as it is.
pub open spec fn spec_remap_key(key: KeyEvent, is_macos: bool) -> KeyEvent {
    if is_macos && key.modifiers == (KeyModifiers { alt: true, ..KeyModifiers::none_spec() }) {
        match key.code {
            KeyCode::Char(c) => match macos_bracket(c) {
                Some(b) => KeyEvent { code: KeyCode::Char(b), modifiers: KeyModifiers::none_spec() },
                None => key,
            },
            _ => key,
        }
    } else {
        key
    }
}

/// Turns the `alt`-digit keys that macOS uses for brackets into those brackets.
pub fn remap_key(key: KeyEvent, is_macos: bool) -> (r: KeyEvent)
    ensures
        r == spec_remap_key(key, is_macos),
{
    let m = key.modifiers;
    if is_macos && m.alt && !m.shift && !m.control && !m.super_key && !m.hyper && !m.meta {
        match key.code {
            KeyCode::Char(c) => {
                let b = if c == '5' {
                    '['
                } else if c == '6' {
                    ']'
                } else if c == '8' {
                    '{'
                } else if c == '9' {
                    '}'
                } else {
                    return key;
                };
                KeyEvent { code: KeyCode::Char(b), modifiers: KeyModifiers::none() }
            },
            _ => key,
        }
    } else {
        key
    }
}

impl Editor {
    /// An editor that shows `text` under `title` and lets nothing change it.
    pub fn readonly(text: String, title: String) -> (e: Editor)
        ensures
            e.title == title,
            e.text == text,
            e.readonly,
            !e.focused,
    {
        Editor { title, text, readonly: true, focused: false }
    }

    /// An empty editor under `title` whose text may be changed.
    pub fn writeable(title: String) -> (e: Editor)
        ensures
            e.title == title,
            e.text@ == Seq::<char>::empty(),
            !e.readonly,
            !e.focused,
    {
        Editor { title, text: String::new(), readonly: false, focused: false }
    }

    /// An editor under `title` that starts with `text`, which may be changed.
    pub fn writeable_with_text(title: String, text: String) -> (e: Editor)
        ensures
            e.title == title,
            e.text == text,
            !e.readonly,
            !e.focused,
    {
        Editor { title, text, readonly: false, focused: false }
    }

    /// The text in the editor.
    pub fn get_text(&self) -> (t: String)
        ensures
            t@ == self@.text,
    {
        self.text.clone()
    }

    /// Records what the editor's text area now holds.
    pub fn set_text(&mut self, text: String)
        ensures
            final(self)@ == (EditorView { text: text@, ..old(self)@ }),
    {
        self.text = text;
    }

    /// Gives the editor the focus.
    pub fn focus(&mut self)
        ensures
            *final(self) == (Editor { focused: true, ..*old(self) }),
    {
        self.focused = true;
    }

    /// Takes the focus from the editor.
    pub fn unfocus(&mut self)
        ensures
            *final(self) == (Editor { focused: false, ..*old(self) }),
    {
        self.focused = false;
    }

    /// The key that the editor's text area receives for a key press, if any: a read-only
    /// editor takes only keys that move around.
    pub fn handle_key_events(&self, key: KeyEvent, is_macos: bool) -> (r: Option<KeyEvent>)
        ensures
            self.readonly && !is_navigation_key(key.code) ==> r is None,
            !(self.readonly && !is_navigation_key(key.code)) ==> r == Some(spec_remap_key(key, is_macos)),
    {
        if self.readonly {
            match key.code {
                KeyCode::Left | KeyCode::Right | KeyCode::Up | KeyCode::Down | KeyCode::Home
                | KeyCode::End | KeyCode::PageUp | KeyCode::PageDown | KeyCode::Esc => {},
                _ => {
                    return None;
                },
            }
        }
        Some(remap_key(key, is_macos))
    }
}

} // verus!
