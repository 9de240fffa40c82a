use hmq_tui::editor::{remap_key, Editor};
use hmq_tui::filter_popup::{FilterField, FilterPopup, Tab};
use hmq_tui::keys::{KeyCode, KeyEvent, KeyModifiers};
use hmq_tui::mode::Mode;
use hmq_tui::popup::{popup_rect, ConfirmPopup, ErrorPopup, Rect};

fn key(code: KeyCode) -> KeyEvent {
    KeyEvent::new(code, KeyModifiers::none())
}

fn alt(c: char) -> KeyEvent {
    KeyEvent::new(KeyCode::Char(c), KeyModifiers { alt: true, ..KeyModifiers::none() })
}

#[test]
fn macos_brackets_are_remapped() {
    assert_eq!(key(KeyCode::Char('[')), remap_key(alt('5'), true));
    assert_eq!(key(KeyCode::Char('}')), remap_key(alt('9'), true));
    assert_eq!(alt('5'), remap_key(alt('5'), false));
    assert_eq!(alt('7'), remap_key(alt('7'), true));
}

#[test]
fn read_only_editors_take_only_moves() {
    let mut e = Editor::readonly("text".to_string(), "Title".to_string());
    assert!(!e.focused);
    e.focus();
    assert!(e.focused);
    assert_eq!(None, e.handle_key_events(key(KeyCode::Char('x')), false));
    assert_eq!(Some(key(KeyCode::Up)), e.handle_key_events(key(KeyCode::Up), false));
    e.unfocus();
    assert!(!e.focused);
    let mut w = Editor::writeable("New".to_string());
    assert_eq!("", w.get_text());
    assert_eq!(Some(key(KeyCode::Char('x'))), w.handle_key_events(key(KeyCode::Char('x')), false));
    w.set_text("abc".to_string());
    assert_eq!("abc", w.get_text());
}

#[test]
fn filter_popup_switches_tabs_and_fields() {
    let mut p = FilterPopup::new();
    assert_eq!("Filter Items", p.title());
    assert_eq!(Some((FilterField::Keyword, key(KeyCode::Char('a')))), p.handle_key_events(key(KeyCode::Char('a')), false));
    assert_eq!(None, p.handle_key_events(key(KeyCode::F(1)), false));
    assert_eq!(&Tab::KeywordSearch { is_regex_checked: false }, p.get_selected_tab());
    assert_eq!(None, p.handle_key_events(key(KeyCode::Enter), false));
    assert_eq!(None, p.handle_key_events(key(KeyCode::Tab), false));
    assert_eq!(Some((FilterField::Query, key(KeyCode::Down))), p.handle_key_events(key(KeyCode::Down), false));
    assert_eq!(Some((FilterField::Query, key(KeyCode::Char('q')))), p.handle_key_events(key(KeyCode::Char('q')), false));
    assert_eq!(Some((FilterField::JsonPath, key(KeyCode::Up))), p.handle_key_events(key(KeyCode::Up), false));
    assert_eq!(None, p.handle_key_events(key(KeyCode::Tab), false));
    assert_eq!(0, p.selected);
}

#[test]
fn popups_have_footers_and_a_centred_area() {
    let c = ConfirmPopup { title: "t".to_string(), message: "m".to_string() };
    assert_eq!("[Esc] Close  [Enter] Confirm", c.footer());
    let e = ErrorPopup { title: "t".to_string(), message: "m".to_string() };
    assert_eq!("[Esc] Close", e.footer());
    let area = popup_rect(60, 40, Rect { x: 0, y: 0, width: 100, height: 50 });
    assert_eq!(Rect { x: 20, y: 15, width: 60, height: 20 }, area);
    assert_eq!(Mode::Home, Mode::default());
}
