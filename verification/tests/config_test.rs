use hmq_tui::keys::{key_event_to_string, parse_key_event, parse_key_sequence, KeyCode, KeyEvent, KeyModifiers};
use hmq_tui::styles::{
    is_color_readable, is_style_readable, parse_color, parse_style, process_color_string, Color, Style,
};

fn mods(shift: bool, control: bool, alt: bool) -> KeyModifiers {
    KeyModifiers { shift, control, alt, super_key: false, hyper: false, meta: false }
}

#[test]
fn test_parse_style_default() {
    let style = parse_style("");
    assert_eq!(style, Style::default());
}

#[test]
fn test_parse_style_foreground() {
    let style = parse_style("red");
    assert_eq!(style.fg, Some(Color::Indexed(1)));
}

#[test]
fn test_parse_style_background() {
    let style = parse_style("on blue");
    assert_eq!(style.bg, Some(Color::Indexed(4)));
}

#[test]
fn test_parse_style_modifiers() {
    let style = parse_style("underline red on blue");
    assert_eq!(style.fg, Some(Color::Indexed(1)));
    assert_eq!(style.bg, Some(Color::Indexed(4)));
}

#[test]
fn test_process_color_string() {
    let (color, modifiers) = process_color_string("underline bold inverse gray");
    assert_eq!(color, "gray");
    assert!(modifiers.underlined);
    assert!(modifiers.bold);
    assert!(modifiers.reversed);
}

#[test]
fn test_parse_color_rgb() {
    let color = parse_color("rgb123");
    let expected = 16 + 1 * 36 + 2 * 6 + 3;
    assert_eq!(color, Some(Color::Indexed(expected)));
}

#[test]
fn colors_are_trimmed_of_unicode_white_space() {
    assert_eq!(Some(Color::Indexed(1)), parse_color("\u{a0}red\u{3000}"));
    assert_eq!(Some(Color::Indexed(12)), parse_color(" \tbold blue\u{2009}"));
}

#[test]
fn rgb_digits_are_read_from_bytes() {
    // "é" takes two bytes, so bytes 3, 4 and 5 are "g", "b" and "1".
    assert_eq!(Some(Color::Indexed(16 + 1)), parse_color("érgb12x"));
    assert!(is_color_readable("érgb12x"));
    assert!(!is_color_readable("rgb12"));
    assert!(!is_color_readable("rgb999"));
    assert!(!is_color_readable("gray24"));
    assert!(is_color_readable("gray23"));
}

#[test]
fn styles_are_checked_before_reading() {
    assert!(is_style_readable("underline red on blue"));
    assert!(is_style_readable("RED ON BLUE"));
    assert!(!is_style_readable("rgb999 on blue"));
    assert!(!is_style_readable("red on gray30"));
    // Lower-cased, each "İ" takes a byte more, so the split falls inside the first "é".
    assert!(!is_style_readable("İİİİ on éé"));
    assert!(is_style_readable("İ on blue"));
    let style = parse_style("Café on green");
    assert_eq!(style.bg, Some(Color::Indexed(2)));
}

#[test]
fn test_parse_color_unknown() {
    let color = parse_color("unknown");
    assert_eq!(color, None);
}

#[test]
fn test_simple_keys() {
    assert_eq!(
        parse_key_event("a").unwrap(),
        KeyEvent::new(KeyCode::Char('a'), KeyModifiers::none())
    );

    assert_eq!(
        parse_key_event("enter").unwrap(),
        KeyEvent::new(KeyCode::Enter, KeyModifiers::none())
    );

    assert_eq!(
        parse_key_event("esc").unwrap(),
        KeyEvent::new(KeyCode::Esc, KeyModifiers::none())
    );
}

#[test]
fn test_with_modifiers() {
    assert_eq!(
        parse_key_event("ctrl-a").unwrap(),
        KeyEvent::new(KeyCode::Char('a'), mods(false, true, false))
    );

    assert_eq!(
        parse_key_event("alt-enter").unwrap(),
        KeyEvent::new(KeyCode::Enter, mods(false, false, true))
    );

    assert_eq!(
        parse_key_event("shift-esc").unwrap(),
        KeyEvent::new(KeyCode::Esc, mods(true, false, false))
    );
}

#[test]
fn test_multiple_modifiers() {
    assert_eq!(
        parse_key_event("ctrl-alt-a").unwrap(),
        KeyEvent::new(KeyCode::Char('a'), mods(false, true, true))
    );

    assert_eq!(
        parse_key_event("ctrl-shift-enter").unwrap(),
        KeyEvent::new(KeyCode::Enter, mods(true, true, false))
    );
}

#[test]
fn test_reverse_multiple_modifiers() {
    assert_eq!(
        key_event_to_string(&KeyEvent::new(KeyCode::Char('a'), mods(false, true, true))),
        "ctrl-alt-a".to_string()
    );
}

#[test]
fn test_invalid_keys() {
    assert!(parse_key_event("invalid-key").is_err());
    assert!(parse_key_event("ctrl-invalid-key").is_err());
}

#[test]
fn test_case_insensitivity() {
    assert_eq!(
        parse_key_event("CTRL-a").unwrap(),
        KeyEvent::new(KeyCode::Char('a'), mods(false, true, false))
    );

    assert_eq!(
        parse_key_event("AlT-eNtEr").unwrap(),
        KeyEvent::new(KeyCode::Enter, mods(false, false, true))
    );
}

#[test]
fn parse_key_event_error_names_the_rest() {
    assert_eq!(parse_key_event("ctrl-Foo"), Err("Unable to parse foo".to_string()));
    assert_eq!(parse_key_event(""), Err("Unable to parse ".to_string()));
    assert_eq!(parse_key_event("é"), Err("Unable to parse é".to_string()));
}

#[test]
fn parse_key_event_named_keys() {
    assert_eq!(parse_key_event("backtab").unwrap(), KeyEvent::new(KeyCode::BackTab, mods(true, false, false)));
    assert_eq!(parse_key_event("f12").unwrap(), KeyEvent::new(KeyCode::F(12), KeyModifiers::none()));
    assert_eq!(parse_key_event("space").unwrap(), KeyEvent::new(KeyCode::Char(' '), KeyModifiers::none()));
    assert_eq!(parse_key_event("minus").unwrap(), KeyEvent::new(KeyCode::Char('-'), KeyModifiers::none()));
    assert_eq!(parse_key_event("shift-a").unwrap(), KeyEvent::new(KeyCode::Char('A'), mods(true, false, false)));
    assert_eq!(parse_key_event("alt-ctrl-shift-x").unwrap(), KeyEvent::new(KeyCode::Char('X'), mods(true, true, true)));
}

#[test]
fn key_event_to_string_forms() {
    assert_eq!(key_event_to_string(&KeyEvent::new(KeyCode::F(7), KeyModifiers::none())), "f(7)");
    assert_eq!(key_event_to_string(&KeyEvent::new(KeyCode::F(123), mods(true, false, false))), "shift-f(123)");
    assert_eq!(key_event_to_string(&KeyEvent::new(KeyCode::Char(' '), mods(true, true, true))), "ctrl-shift-alt-space");
    assert_eq!(key_event_to_string(&KeyEvent::new(KeyCode::Null, KeyModifiers::none())), "");
    assert_eq!(key_event_to_string(&KeyEvent::new(KeyCode::PageDown, KeyModifiers::none())), "pagedown");
}

#[test]
fn key_event_round_trip_examples() {
    let events = [
        KeyEvent::new(KeyCode::Char('a'), mods(false, true, true)),
        KeyEvent::new(KeyCode::Char('Z'), mods(true, false, false)),
        KeyEvent::new(KeyCode::Char(' '), mods(true, false, false)),
        KeyEvent::new(KeyCode::BackTab, mods(true, false, false)),
        KeyEvent::new(KeyCode::End, mods(false, true, false)),
        KeyEvent::new(KeyCode::Char('-'), mods(false, false, true)),
    ];
    for e in events {
        assert_eq!(parse_key_event(&key_event_to_string(&e)), Ok(e));
    }
}

#[test]
fn parse_key_sequence_forms() {
    assert_eq!(
        parse_key_sequence("<q>").unwrap(),
        vec![KeyEvent::new(KeyCode::Char('q'), KeyModifiers::none())]
    );
    assert_eq!(
        parse_key_sequence("<ctrl-a><b>").unwrap(),
        vec![
            KeyEvent::new(KeyCode::Char('a'), mods(false, true, false)),
            KeyEvent::new(KeyCode::Char('b'), KeyModifiers::none())
        ]
    );
    assert_eq!(
        parse_key_sequence("q").unwrap(),
        vec![KeyEvent::new(KeyCode::Char('q'), KeyModifiers::none())]
    );
    assert_eq!(parse_key_sequence("<q"), Err("Unable to parse `<q`".to_string()));
    assert_eq!(parse_key_sequence("<a><zz>"), Err("Unable to parse zz".to_string()));
}

#[test]
fn parse_color_forms() {
    assert_eq!(parse_color("  color42 "), Some(Color::Indexed(42)));
    assert_eq!(parse_color("bright color9"), Some(Color::Indexed(9)));
    assert_eq!(parse_color("gray7"), Some(Color::Indexed(239)));
    assert_eq!(parse_color("bold cyan"), Some(Color::Indexed(14)));
    assert_eq!(parse_color("colorx"), Some(Color::Indexed(0)));
}

#[test]
fn parse_style_case_and_modifiers() {
    let style = parse_style("bold grey3 ON inverse red");
    assert_eq!(style.fg, Some(Color::Indexed(235)));
    assert_eq!(style.bg, None);
    assert!(style.add_modifier.bold);
    assert!(!style.add_modifier.underlined);
}
