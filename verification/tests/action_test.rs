use hmq_tui::action::{parse_action, resize_action, Action};

#[test]
fn named_actions_are_read() {
    assert_eq!(Ok(Action::Quit), parse_action("Quit"));
    assert_eq!(Ok(Action::Delete), parse_action("DeleteItem"));
    assert_eq!(Ok(Action::SelectTab(6)), parse_action("Tab7"));
    assert_eq!(Ok(Action::LoadAllItems), parse_action("LoadAllItems"));
}

#[test]
fn errors_and_resizes_carry_their_arguments() {
    assert_eq!(Ok(Action::Error("boom".to_string())), parse_action("Error(boom)"));
    assert_eq!(Ok(Action::Resize(10, 20)), parse_action("Resize(10, 20)"));
    assert_eq!(Ok(Action::Resize(7, 8)), parse_action("Resize( 7 ,8 )"));
    assert!(parse_action("Resize(a, 20)").is_err());
    assert!(parse_action("Resize(70000, 20)").is_err());
    assert_eq!(Err("Invalid Resize format: Resize(1)".to_string()), parse_action("Resize(1)"));
    assert_eq!(Err("Unknown Action variant: Jump".to_string()), parse_action("Jump"));
}

#[test]
fn resize_arguments_are_numbers() {
    assert_eq!(Ok(Action::Resize(80, 24)), resize_action("80", "24"));
    assert_eq!(Ok(Action::Resize(1, 2)), resize_action("+1", "2"));
    assert!(resize_action("-1", "2").is_err());
    assert!(resize_action("", "2").is_err());
}

#[test]
fn resize_arguments_are_trimmed_of_unicode_white_space() {
    assert_eq!(Ok(Action::Resize(80, 24)), parse_action("Resize(\u{a0}80,\u{3000}24\u{2028})"));
}
