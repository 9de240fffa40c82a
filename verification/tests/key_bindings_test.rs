use hmq_tui::action::Action;
use hmq_tui::config::{build_key_bindings, build_styles, key_hint_text, GroupValue, KeyBinding, ModeValue};
use hmq_tui::keys::{parse_key_sequence, KeyCode, KeyEvent, KeyModifiers};
use hmq_tui::mode::Mode;
use hmq_tui::styles::Color;

fn binding(action: Action, name: Option<&str>, group: Option<&str>) -> KeyBinding {
    KeyBinding { action, display_name: name.map(|s| s.to_string()), display_group: group.map(|s| s.to_string()) }
}

fn home() -> ModeValue {
    ModeValue {
        display_groups: Some(vec![("tabs".to_string(), GroupValue { display_name: "Switch Tab".to_string() })]),
        extends: None,
        key_bindings: vec![
            ("<q>".to_string(), binding(Action::Quit, Some("Quit"), None)),
            ("<1>".to_string(), binding(Action::SelectTab(0), None, Some("tabs"))),
            ("<2>".to_string(), binding(Action::SelectTab(1), None, Some("tabs"))),
            ("<ctrl-c>".to_string(), binding(Action::Quit, None, None)),
        ],
    }
}

fn tab() -> ModeValue {
    ModeValue {
        display_groups: None,
        extends: Some(vec![Mode::Home]),
        key_bindings: vec![("<down>".to_string(), binding(Action::NextItem, Some("Next"), None))],
    }
}

#[test]
fn home_quits_on_q() {
    let modes = vec![(Mode::Home, home())];
    let kb = build_key_bindings(&modes, false).unwrap();
    let q = parse_key_sequence("<q>").unwrap();
    assert_eq!(Some(Action::Quit), kb.action_for(Mode::Home, &q));
    assert_eq!("Quit [q]", kb.hints_for(Mode::Home).unwrap()[0]);
    assert_eq!(hints(&["Quit [q]", "Switch Tab [12]"]), *kb.hints_for(Mode::Home).unwrap());
    let ctrl_c = vec![KeyEvent::new(KeyCode::Char('c'), ctrl())];
    assert_eq!(Some(Action::Quit), kb.action_for(Mode::Home, &ctrl_c));
    assert_eq!(None, kb.action_for(Mode::Tab, &q));
}

fn ctrl() -> KeyModifiers {
    KeyModifiers { control: true, ..KeyModifiers::none() }
}

fn hints(v: &[&str]) -> Vec<String> {
    v.iter().map(|s| s.to_string()).collect()
}

#[test]
fn an_extending_mode_takes_the_bindings_of_the_extended() {
    let modes = vec![(Mode::Home, home()), (Mode::Tab, tab())];
    let kb = build_key_bindings(&modes, false).unwrap();
    let q = parse_key_sequence("<q>").unwrap();
    let down = parse_key_sequence("<down>").unwrap();
    assert_eq!(Some(Action::Quit), kb.action_for(Mode::Tab, &q));
    assert_eq!(Some(Action::NextItem), kb.action_for(Mode::Tab, &down));
    assert_eq!(None, kb.action_for(Mode::Home, &down));
    assert_eq!(hints(&["Quit [q]", "Next [↓]", "Switch Tab [12]"]), *kb.hints_for(Mode::Tab).unwrap());
}

#[test]
fn bad_configurations_are_refused() {
    let missing = vec![(Mode::Tab, tab())];
    assert!(build_key_bindings(&missing, false).is_err());
    let mut cyclic = home();
    cyclic.extends = Some(vec![Mode::Home]);
    assert!(build_key_bindings(&vec![(Mode::Home, cyclic)], false).is_err());
    let unknown_group = ModeValue {
        display_groups: None,
        extends: None,
        key_bindings: vec![("<a>".to_string(), binding(Action::Quit, None, Some("nope")))],
    };
    assert!(build_key_bindings(&vec![(Mode::Home, unknown_group)], false).is_err());
    let unparsable = ModeValue {
        display_groups: None,
        extends: None,
        key_bindings: vec![("<ctrl-nokey>".to_string(), binding(Action::Quit, None, None))],
    };
    assert!(build_key_bindings(&vec![(Mode::Home, unparsable)], false).is_err());
}

#[test]
fn later_bindings_replace_earlier_ones() {
    let value = ModeValue {
        display_groups: None,
        extends: None,
        key_bindings: vec![
            ("<x>".to_string(), binding(Action::Quit, Some("Quit"), None)),
            ("<x>".to_string(), binding(Action::Help, Some("Help"), None)),
        ],
    };
    let kb = build_key_bindings(&vec![(Mode::Home, value)], false).unwrap();
    assert_eq!(Some(Action::Help), kb.action_for(Mode::Home, &parse_key_sequence("<x>").unwrap()));
    assert_eq!(hints(&["Help [x]"]), *kb.hints_for(Mode::Home).unwrap());
}

#[test]
fn key_hints_show_symbols() {
    let events = vec![
        KeyEvent::new(KeyCode::Char('a'), ctrl()),
        KeyEvent::new(KeyCode::Enter, KeyModifiers::none()),
        KeyEvent::new(KeyCode::F(12), KeyModifiers { shift: true, ..KeyModifiers::none() }),
        KeyEvent::new(KeyCode::Left, KeyModifiers { alt: true, ..KeyModifiers::none() }),
    ];
    assert_eq!("Go [Ctrl-a⏎⇧F12Alt-←]", key_hint_text("Go", &events, false));
    assert_eq!("Go [⌃a⏎⇧F12⌥←]", key_hint_text("Go", &events, true));
    let both = vec![KeyEvent::new(KeyCode::Char('a'), KeyModifiers { control: true, alt: true, ..KeyModifiers::none() })];
    assert_eq!("Both [a]", key_hint_text("Both", &both, false));
}

#[test]
fn styles_are_read_per_mode() {
    let parsed = vec![(Mode::Home, vec![("title".to_string(), "red on blue".to_string())])];
    let styles = build_styles(&parsed);
    assert_eq!(Mode::Home, styles.0[0].0);
    assert_eq!("title", styles.0[0].1[0].0);
    assert_eq!(Some(Color::Indexed(1)), styles.0[0].1[0].1.fg);
    assert_eq!(Some(Color::Indexed(4)), styles.0[0].1[0].1.bg);
}

#[test]
fn an_extending_mode_overrides_what_it_rebinds() {
    let mut own = tab();
    own.key_bindings.push(("<q>".to_string(), binding(Action::Help, None, None)));
    let modes = vec![(Mode::Home, home()), (Mode::Tab, own)];
    let kb = build_key_bindings(&modes, false).unwrap();
    let q = parse_key_sequence("<q>").unwrap();
    assert_eq!(Some(Action::Help), kb.action_for(Mode::Tab, &q));
    assert_eq!(Some(Action::Quit), kb.action_for(Mode::Home, &q));
}
