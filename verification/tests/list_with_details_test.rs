use hmq_tui::action::{Action, ListWithDetailsAction};
use hmq_tui::filter_popup::FilterPopup;
use hmq_tui::keys::{KeyCode, KeyEvent, KeyModifiers};
use hmq_tui::list_with_details::{
    DetailsPane, Features, FocusMode, KeyRoute, ListPane, ListPopup, ListWithDetails, LoadingState,
};
use hmq_tui::mode::Mode;
use hmq_tui::repository::{in_memory_pool, Repository};

fn features(deletable: bool, creatable: bool, updatable: bool) -> Features {
    let mut b = Features::builder();
    if deletable {
        b = b.deletable();
    }
    if creatable {
        b = b.creatable();
    }
    if updatable {
        b = b.updatable();
    }
    b.build()
}

fn list(features: Features) -> ListWithDetails {
    let pool = in_memory_pool().unwrap();
    let repository = Repository::init(&pool, "schemas").unwrap();
    ListWithDetails::new("Schemas".to_string(), "Schema".to_string(), features, repository)
}

fn ids(v: &[&str]) -> Vec<String> {
    v.iter().map(|s| s.to_string()).collect()
}

fn state(l: &ListWithDetails) -> (Vec<String>, Vec<String>, String, Option<String>) {
    match l.loading_state() {
        LoadingState::Loaded { items, list, focus_mode, filter } => (
            items.iter().cloned().collect(),
            list.clone(),
            match focus_mode {
                FocusMode::Scrolling(s) => format!("scrolling {:?}", s),
                FocusMode::Editing { list_state, editor } => format!("editing {:?} {}", list_state, editor.title),
                FocusMode::DetailsError { title, message } => format!("error {} {}", title, message),
            },
            filter.clone(),
        ),
        LoadingState::Loading => (vec![], vec![], "loading".to_string(), None),
        LoadingState::LoadingError(m) => (vec![], vec![], format!("failed {}", m), None),
    }
}

fn key(c: char) -> KeyEvent {
    KeyEvent::new(KeyCode::Char(c), KeyModifiers::none())
}

#[test]
fn base_mode_follows_features() {
    assert_eq!(Mode::FullTab, list(features(true, true, false)).base_mode());
    assert_eq!(Mode::ReadDeleteTab, list(features(true, false, false)).base_mode());
    assert_eq!(Mode::ReadTab, list(features(false, true, true)).base_mode());
    let mut mode = Mode::Home;
    list(features(true, false, false)).activate(&mut mode);
    assert_eq!(Mode::ReadDeleteTab, mode);
}

#[test]
fn set_items_keeps_each_id_once_and_every_line() {
    let mut l = list(features(true, true, false));
    l.set_items(ids(&["a", "b", "a"]), Some("x".to_string()));
    assert_eq!((ids(&["a", "b"]), ids(&["a", "b", "a"]), "scrolling None".to_string(), Some("x".to_string())), state(&l));
    l.put("a".to_string());
    l.put("c".to_string());
    assert_eq!(ids(&["a", "b", "c"]), state(&l).0);
    assert_eq!(ids(&["a", "b", "a", "c"]), state(&l).1);
}

#[test]
fn next_and_prev_move_the_selection() {
    let mut l = list(features(true, true, false));
    l.repository().save("a", r#"{"id":"a"}"#).unwrap();
    l.repository().save("b", r#"{"id":"b"}"#).unwrap();
    l.set_items(ids(&["a", "b"]), None);
    assert_eq!(None, l.prev_item());
    let first = l.next_item().unwrap();
    assert_eq!("a", first.0);
    assert_eq!(Some("b".to_string()), l.next_item().map(|(k, _)| k));
    assert_eq!("scrolling Some(1)", state(&l).2);
    assert_eq!(None, l.next_item());
    assert_eq!("scrolling Some(1)", state(&l).2);
    assert_eq!(Some("a".to_string()), l.prev_item().map(|(k, _)| k));
    assert_eq!("scrolling Some(0)", state(&l).2);
    let mut mode = Mode::FullTab;
    assert_eq!(Some(Action::SelectedItem("b".to_string())), l.update(Action::NextItem, &mut mode));
}

#[test]
fn removing_the_last_line_moves_the_selection_up() {
    let mut l = list(features(true, true, false));
    l.set_items(ids(&["a", "b"]), None);
    l.select_item("b".to_string());
    assert_eq!("scrolling Some(1)", state(&l).2);
    l.remove("b".to_string());
    assert_eq!((ids(&["a"]), ids(&["a"])), (state(&l).0, state(&l).1));
    assert_eq!("scrolling Some(0)", state(&l).2);
    l.remove("a".to_string());
    assert_eq!("scrolling None", state(&l).2);
    l.remove("zzz".to_string());
    assert_eq!(Vec::<String>::new(), state(&l).0);
}

#[test]
fn delete_asks_for_confirmation_then_requests_the_deletion() {
    let mut l = list(features(true, true, false));
    l.repository().save("s1", r#"{"id":"s1"}"#).unwrap();
    l.set_items(ids(&["s1"]), None);
    let mut mode = Mode::FullTab;
    l.update(Action::NextItem, &mut mode);
    assert_eq!(None, l.update(Action::Delete, &mut mode));
    assert_eq!(Mode::ConfirmPopup, mode);
    match l.popup() {
        Some(ListPopup::DeletePopup { popup, item_id }) => {
            assert_eq!("Delete Schema 's1'?", popup.title);
            assert_eq!("Are you sure you want to delete the Schema with id 's1'", popup.message);
            assert_eq!("s1", item_id);
        }
        _ => assert!(false),
    }
    assert_eq!(
        Some(Action::LWD(ListWithDetailsAction::Delete("s1".to_string()))),
        l.update(Action::ConfirmPopup, &mut mode)
    );
    let result = l.update(
        Action::ItemDeleted { item_name: "Schema".to_string(), result: Ok("s1".to_string()) },
        &mut mode,
    );
    assert_eq!(None, result);
    assert!(l.popup().is_none());
    assert_eq!(Mode::FullTab, mode);
    assert_eq!(Vec::<String>::new(), state(&l).0);
}

#[test]
fn a_list_that_cannot_delete_shows_no_popup() {
    let mut l = list(features(false, false, false));
    l.repository().save("s1", r#"{"id":"s1"}"#).unwrap();
    l.set_items(ids(&["s1"]), None);
    let mut mode = Mode::ReadTab;
    l.update(Action::NextItem, &mut mode);
    l.update(Action::Delete, &mut mode);
    assert!(l.popup().is_none());
    assert_eq!(Mode::ReadTab, mode);
}

#[test]
fn a_failed_deletion_is_shown_in_a_popup() {
    let mut l = list(features(true, true, false));
    let mut mode = Mode::FullTab;
    l.handle_item_deleted("Schema".to_string(), Err("boom".to_string()), &mut mode);
    assert_eq!(Mode::ErrorPopup, mode);
    match l.popup() {
        Some(ListPopup::ErrorPopup { popup }) => {
            assert_eq!("Deletion failed", popup.title);
            assert_eq!("Failed deletion of item:\nboom", popup.message);
        }
        _ => assert!(false),
    }
    l.update(Action::ClosePopup, &mut mode);
    assert_eq!(Mode::FullTab, mode);
    let mut other = list(features(true, true, false));
    other.handle_item_deleted("Script".to_string(), Err("boom".to_string()), &mut mode);
    assert!(other.popup().is_none());
}

#[test]
fn inspect_opens_a_read_only_editor_with_the_details() {
    let mut l = list(features(true, true, false));
    l.repository().save("s1", r#"{"id":"s1","n":1}"#).unwrap();
    l.set_items(ids(&["s1"]), None);
    let mut mode = Mode::FullTab;
    l.update(Action::NextItem, &mut mode);
    l.update(Action::Inspect, &mut mode);
    assert_eq!(Mode::EditorReadOnly, mode);
    match l.loading_state() {
        LoadingState::Loaded { focus_mode: FocusMode::Editing { list_state, editor }, .. } => {
            assert_eq!(&Some(0), list_state);
            assert_eq!("Schema", editor.title);
            assert!(editor.readonly);
            assert!(editor.focused);
            assert_eq!("{\n  \"id\": \"s1\",\n  \"n\": 1\n}", editor.text);
        }
        _ => assert!(false),
    }
    assert_eq!(KeyRoute::Nothing, l.handle_key_events(key('x'), false));
    let down = KeyEvent::new(KeyCode::Down, KeyModifiers::none());
    assert_eq!(KeyRoute::DetailsEditor(down), l.handle_key_events(down, false));
    l.update(Action::Escape, &mut mode);
    assert_eq!("scrolling Some(0)", state(&l).2);
    assert_eq!(Mode::FullTab, mode);
}

#[test]
fn inspect_of_an_updatable_item_opens_an_update_editor() {
    let mut l = list(features(true, true, true));
    l.repository().save("p", r#"{"id":"p"}"#).unwrap();
    l.set_items(ids(&["p"]), None);
    let mut mode = Mode::FullTab;
    l.update(Action::NextItem, &mut mode);
    l.update(Action::Enter, &mut mode);
    assert_eq!(Mode::UpdateEditor, mode);
    assert_eq!("editing Some(0) Update Schema", state(&l).2);
    l.set_details_text("{\"id\":\"p\",\"x\":2}".to_string());
    assert_eq!(
        Some(Action::LWD(ListWithDetailsAction::Update("{\"id\":\"p\",\"x\":2}".to_string()))),
        l.update(Action::UpdateItem, &mut mode)
    );
    l.update(Action::ItemUpdated { item_name: "Schema".to_string(), result: Err("bad".to_string()) }, &mut mode);
    assert_eq!("error Schema update failed bad", state(&l).2);
}

#[test]
fn new_items_are_edited_created_and_selected() {
    let mut l = list(features(true, true, false));
    let mut mode = Mode::FullTab;
    l.update(Action::NewItem, &mut mode);
    assert_eq!(Mode::CreateEditor, mode);
    assert_eq!("New Schema", l.new_item_editor().as_ref().unwrap().title);
    assert_eq!(KeyRoute::NewItemEditor(key('{')), l.handle_key_events(key('{'), false));
    l.set_new_item_text("{\"id\":\"n\"}".to_string());
    assert_eq!(
        Some(Action::LWD(ListWithDetailsAction::Create("{\"id\":\"n\"}".to_string()))),
        l.update(Action::CreateItem, &mut mode)
    );
    l.repository().save("n", "{\"id\":\"n\"}").unwrap();
    l.update(Action::ItemCreated { item_name: "Schema".to_string(), result: Ok("n".to_string()) }, &mut mode);
    assert!(l.new_item_editor().is_none());
    assert_eq!(Mode::FullTab, mode);
    assert_eq!((ids(&["n"]), "scrolling Some(0)".to_string()), (state(&l).0, state(&l).2));
    l.update(Action::ItemCreated { item_name: "Schema".to_string(), result: Err("no".to_string()) }, &mut mode);
    assert_eq!("error Schema creation failed no", state(&l).2);
}

#[test]
fn a_created_item_the_repository_lacks_is_not_added() {
    let mut l = list(features(true, true, false));
    let mut mode = Mode::FullTab;
    l.handle_item_created(Ok("ghost".to_string()), &mut mode);
    assert_eq!(Vec::<String>::new(), state(&l).0);
}

#[test]
fn filtering_shows_the_matching_items_and_escape_shows_all() {
    let mut l = list(features(true, true, false));
    l.repository().save("a", r#"{"id":"a","name":"alpha"}"#).unwrap();
    l.repository().save("b", r#"{"id":"b","name":"beta"}"#).unwrap();
    let mut mode = Mode::FullTab;
    l.update(Action::ItemsLoadingFinished { item_name: "Schema".to_string(), result: Ok(()) }, &mut mode);
    assert_eq!(ids(&["a", "b"]), state(&l).0);
    l.update(Action::Filter, &mut mode);
    assert_eq!(Mode::FilterPopup, mode);
    match l.popup() {
        Some(ListPopup::FilterPopup { popup, text }) => {
            assert_eq!(&FilterPopup::new(), popup);
            assert_eq!("", text);
        }
        _ => assert!(false),
    }
    l.set_filter_text("eta".to_string());
    assert_eq!(None, l.update(Action::ConfirmPopup, &mut mode));
    assert!(l.popup().is_none());
    assert_eq!(Mode::FullTab, mode);
    assert_eq!((ids(&["b"]), Some("eta".to_string())), (state(&l).0, state(&l).3));
    l.update(Action::Escape, &mut mode);
    assert_eq!((ids(&["a", "b"]), None), (state(&l).0, state(&l).3));
}

#[test]
fn loading_states_and_errors() {
    let mut l = list(features(true, true, false));
    let mut mode = Mode::FullTab;
    l.update(Action::LoadAllItems, &mut mode);
    assert_eq!("loading", state(&l).2);
    l.update(Action::ItemsLoadingFinished { item_name: "Script".to_string(), result: Err("no".to_string()) }, &mut mode);
    assert_eq!("loading", state(&l).2);
    l.update(Action::ItemsLoadingFinished { item_name: "Schema".to_string(), result: Err("down".to_string()) }, &mut mode);
    assert_eq!("failed down", state(&l).2);
    assert_eq!(KeyRoute::Nothing, l.handle_key_events(key('a'), false));
    assert_eq!("scrolling None", state(&l).2);
    l.details_error("T".to_string(), "M".to_string());
    assert_eq!("error T M", state(&l).2);
    l.next_item();
    assert_eq!("scrolling None", state(&l).2);
}

#[test]
fn copying_fails_into_a_popup_and_details_are_pretty() {
    let mut l = list(features(true, true, false));
    l.repository().save("a", r#"{"id":"a"}"#).unwrap();
    l.set_items(ids(&["a"]), None);
    assert_eq!(None, l.selected_details());
    l.next_item();
    assert_eq!(Some("{\n  \"id\": \"a\"\n}".to_string()), l.selected_details());
    assert_eq!(Some("a".to_string()), l.get_selected_key());
    assert_eq!(Some("{\"id\":\"a\"}".to_string()), l.get("a"));
    assert_eq!(None, l.get("b"));
    let mut mode = Mode::FullTab;
    l.copy_failed("no clipboard".to_string(), &mut mode);
    assert_eq!(Mode::ErrorPopup, mode);
    match l.popup() {
        Some(ListPopup::ErrorPopup { popup }) => {
            assert_eq!("Could not copy to clipboard", popup.title);
            assert_eq!("no clipboard", popup.message);
        }
        _ => assert!(false),
    }
}

#[test]
fn panes_show_what_the_list_holds() {
    let mut l = list(features(true, true, false));
    l.set_items(ids(&["a", "b"]), Some("x".to_string()));
    assert_eq!(
        ListPane::Items {
            title: "Schemas (0/2)".to_string(),
            filter_title: Some(" filtered by 'x'".to_string()),
            lines: ids(&["a", "b"]),
            selected: None,
            dimmed: false,
        },
        l.list_pane(false)
    );
    assert_eq!(DetailsPane::Blank, l.details_pane(false));
    l.next_item();
    match l.list_pane(true) {
        ListPane::Items { title, selected, dimmed, .. } => {
            assert_eq!("Schemas (1/2)", title);
            assert_eq!(Some(0), selected);
            assert!(dimmed);
        }
        _ => assert!(false),
    }
    assert_eq!(DetailsPane::Document(None), l.details_pane(false));
    assert_eq!(DetailsPane::Custom, l.details_pane(true));
    l.loading();
    assert_eq!(ListPane::Loading { title: "Loading Schemas...".to_string() }, l.list_pane(false));
    assert_eq!(DetailsPane::Blank, l.details_pane(false));
    l.list_error("down");
    assert_eq!(
        ListPane::Failed { title: "Loading Schemas failed".to_string(), message: "down".to_string() },
        l.list_pane(false)
    );
}

#[test]
fn adding_and_removing_an_id_gives_the_list_back() {
    let mut l = list(features(true, true, false));
    l.set_items(ids(&["a", "b"]), None);
    let before = state(&l);
    l.put("c".to_string());
    l.remove("c".to_string());
    assert_eq!((before.0, before.1), (state(&l).0, state(&l).1));
    let mut mode = Mode::FullTab;
    assert_eq!("Schemas", l.list_title());
    l.update(Action::LoadAllItems, &mut mode);
    assert_eq!(("Schemas", "Schema", Mode::FullTab), (l.list_title().as_str(), l.item_name().as_str(), l.base_mode()));
}

#[test]
fn a_document_is_shown_laid_out_and_text_that_is_not_json_is_not() {
    let mut l = list(features(true, true, false));
    l.set_items(ids(&["a"]), None);
    let mut mode = Mode::FullTab;
    l.next_item();
    l.show_document("not json", &mut mode);
    assert_eq!("scrolling Some(0)", state(&l).2);
    assert_eq!(Mode::FullTab, mode);
    l.show_document("{\"id\":\"a\"}", &mut mode);
    assert_eq!(Mode::EditorReadOnly, mode);
    match l.loading_state() {
        LoadingState::Loaded { focus_mode: FocusMode::Editing { editor, .. }, .. } => {
            assert_eq!("{\n  \"id\": \"a\"\n}", editor.text);
        }
        _ => assert!(false),
    }
}

#[test]
fn a_reload_shows_exactly_the_ids_answered() {
    let mut l = list(features(true, true, true));
    l.reload(Ok(ids(&["b", "a", "b"])), None);
    assert_eq!((ids(&["b", "a"]), ids(&["b", "a", "b"]), "scrolling None".to_string(), None), state(&l));
    l.reload(Err("no table".to_string()), Some("x".to_string()));
    assert_eq!((vec![], vec![], "failed no table".to_string(), None), state(&l));
}

#[test]
fn found_items_replace_the_list_and_close_the_popup() {
    let mut l = list(features(true, true, true));
    let mut mode = Mode::ReadTab;
    l.show_found(Ok(ids(&["s2"])), "two".to_string(), &mut mode);
    assert_eq!((ids(&["s2"]), ids(&["s2"]), "scrolling None".to_string(), Some("two".to_string())), state(&l));
    l.show_found(Err("broken".to_string()), "two".to_string(), &mut mode);
    assert_eq!((vec![], vec![], "failed broken".to_string(), None), state(&l));
}

#[test]
fn a_document_keeps_the_order_of_its_keys() {
    let mut l = list(features(true, true, false));
    l.set_items(ids(&["a"]), None);
    let mut mode = Mode::FullTab;
    l.next_item();
    l.show_document("{\"name\":\"a\",\"id\":1}", &mut mode);
    match l.loading_state() {
        LoadingState::Loaded { focus_mode: FocusMode::Editing { editor, .. }, .. } => {
            assert_eq!("{\n  \"name\": \"a\",\n  \"id\": 1\n}", editor.text);
        }
        _ => assert!(false),
    }
}

#[test]
fn a_reloaded_list_counts_the_ids_answered() {
    let mut l = list(features(true, true, true));
    l.reload(Ok(ids(&["s1", "s2"])), None);
    match l.list_pane(false) {
        ListPane::Items { title, lines, selected, .. } => {
            assert_eq!("Schemas (0/2)", title);
            assert_eq!(ids(&["s1", "s2"]), lines);
            assert_eq!(None, selected);
        }
        _ => assert!(false),
    }
}
