use hmq_tui::action::{Action, Document, Item, ListWithDetailsAction};
use hmq_tui::home::{split_at_width, Home, HomeStep};
use hmq_tui::list_with_details::{FocusMode, LoadingState};
use hmq_tui::mode::Mode;
use hmq_tui::repository::{in_memory_pool, Repository};
use hmq_tui::tabs::{
    call_finished, features, get_tab_name, item_name, loading_finished, table_name, BehaviorPolicySelector,
    ItemTab, ScriptSelector, ServiceCall, TabComponent, TabKind,
};

fn tab(kind: TabKind) -> ItemTab {
    let pool = in_memory_pool().unwrap();
    let repository = Repository::init(&pool, table_name(kind)).unwrap();
    ItemTab::new(kind, repository)
}

fn hints(v: &[&str]) -> Vec<String> {
    v.iter().map(|s| s.to_string()).collect()
}

#[test]
fn tabs_have_their_names_and_modes() {
    assert_eq!("Behavior Policies", get_tab_name(TabKind::BehaviorPolicies));
    assert_eq!("Trace Recording", item_name(TabKind::TraceRecordings));
    assert_eq!("Client Details", item_name(TabKind::Clients));
    assert_eq!("data_policies", table_name(TabKind::DataPolicies));
    assert!(features(TabKind::DataPolicies).updatable);
    assert!(!features(TabKind::Schemas).updatable);
    let backups = tab(TabKind::Backups);
    assert_eq!("Backups", backups.get_name());
    let mut mode = Mode::Home;
    backups.activate(&mut mode);
    assert_eq!(Mode::BackupTab, mode);
    tab(TabKind::Schemas).activate(&mut mode);
    assert_eq!(Mode::FullTab, mode);
    tab(TabKind::Clients).activate(&mut mode);
    assert_eq!(Mode::ReadTab, mode);
}

#[test]
fn list_requests_become_service_calls() {
    let mut schemas = tab(TabKind::Schemas);
    let mut mode = Mode::FullTab;
    assert_eq!((None, Some(ServiceCall::LoadAll)), schemas.update(Action::LoadAllItems, &mut mode));
    schemas.update(Action::ItemsLoadingFinished { item_name: "Schema".to_string(), result: Ok(()) }, &mut mode);
    schemas.update(Action::NewItem, &mut mode);
    schemas.set_new_item_text("{}".to_string());
    assert_eq!((None, Some(ServiceCall::Create("{}".to_string()))), schemas.update(Action::CreateItem, &mut mode));
    assert_eq!((None, None), schemas.update(Action::Tick, &mut mode));
}

#[test]
fn updates_are_called_only_where_items_can_be_updated() {
    let mut policies = tab(TabKind::DataPolicies);
    let mut mode = Mode::FullTab;
    policies.list().repository().save("p", "{\"id\":\"p\"}").unwrap();
    policies.update(Action::ItemsLoadingFinished { item_name: "Data Policy".to_string(), result: Ok(()) }, &mut mode);
    assert_eq!(Some(Action::SelectedItem("p".to_string())), policies.update(Action::NextItem, &mut mode).0);
    policies.update(Action::Inspect, &mut mode);
    assert_eq!(Mode::UpdateEditor, mode);
    assert_eq!(
        (None, Some(ServiceCall::Update("{\n  \"id\": \"p\"\n}".to_string()))),
        policies.update(Action::UpdateItem, &mut mode)
    );
}

#[test]
fn backups_and_clients_make_their_own_calls() {
    let mut backups = tab(TabKind::Backups);
    let mut mode = Mode::BackupTab;
    assert_eq!((None, Some(ServiceCall::StartBackup)), backups.update(Action::StartBackup, &mut mode));
    assert_eq!((None, Some(ServiceCall::LoadAll)), backups.update(Action::LoadAllItems, &mut mode));
    let mut clients = tab(TabKind::Clients);
    assert_eq!((None, Some(ServiceCall::LoadAll)), clients.update(Action::LoadAllItems, &mut mode));
    clients.list().repository().save("c1", "{\"id\":\"c1\"}").unwrap();
    clients.update(Action::ClientDetailsLoadingFinished(Ok(())), &mut mode);
    match clients.list().loading_state() {
        LoadingState::Loaded { items, focus_mode: FocusMode::Scrolling(None), .. } => {
            assert_eq!(vec!["c1".to_string()], items.iter().cloned().collect::<Vec<String>>());
        }
        _ => assert!(false),
    }
    clients.update(Action::ClientDetailsLoadingFinished(Err("offline".to_string())), &mut mode);
    match clients.list().loading_state() {
        LoadingState::LoadingError(m) => assert_eq!("offline", m),
        _ => assert!(false),
    }
}

#[test]
fn finished_calls_report_back() {
    assert_eq!(
        Action::ItemsLoadingFinished { item_name: "Schema".to_string(), result: Ok(()) },
        loading_finished(TabKind::Schemas, Ok(()))
    );
    assert_eq!(
        Action::ClientDetailsLoadingFinished(Err("x".to_string())),
        loading_finished(TabKind::Clients, Err("x".to_string()))
    );
    assert_eq!(
        Some(Action::ItemDeleted { item_name: "Script".to_string(), result: Ok("s".to_string()) }),
        call_finished(TabKind::Scripts, &ServiceCall::Delete("s".to_string()), Ok("s".to_string()))
    );
    assert_eq!(
        Some(Action::ItemCreated { item_name: "Backup".to_string(), result: Ok("b".to_string()) }),
        call_finished(TabKind::Backups, &ServiceCall::StartBackup, Ok("b".to_string()))
    );
    assert_eq!(None, call_finished(TabKind::Backups, &ServiceCall::LoadAll, Ok(String::new())));
    let _ = ListWithDetailsAction::Delete(String::new());
}

#[test]
fn selectors_pick_their_kind() {
    let doc = Document { id: "p1".to_string(), json: "{}".to_string() };
    let picked = BehaviorPolicySelector.select_with_id(Item::BehaviorPolicyItem(doc));
    assert_eq!(Some(("p1".to_string(), Document { id: "p1".to_string(), json: "{}".to_string() })), picked);
    assert_eq!(None, ScriptSelector.select(Item::SchemaItem(Document { id: "s".to_string(), json: "{}".to_string() })));
    assert!(ScriptSelector.select(Item::ScriptItem(Document { id: "s".to_string(), json: "{}".to_string() })).is_some());
}

#[test]
fn home_moves_between_tabs() {
    let mut home = Home::new();
    assert_eq!(0, home.active_tab());
    assert!(!home.prev_tab());
    assert!(home.next_tab());
    assert_eq!(1, home.active_tab());
    assert!(home.prev_tab());
    assert_eq!(0, home.active_tab());
    assert!(!home.select_tab(7));
    assert!(!home.select_tab(0));
    assert!(home.select_tab(6));
    assert!(!home.next_tab());
    assert_eq!(HomeStep::Activate(2), home.update(&Action::SelectTab(2)));
    assert_eq!(HomeStep::Stay, home.update(&Action::SelectTab(2)));
    assert_eq!(HomeStep::Activate(3), home.update(&Action::NextTab));
    assert_eq!(HomeStep::Forward(3), home.update(&Action::Inspect));
}

#[test]
fn key_hints_are_split_into_lines() {
    let items = hints(&["Quit [q]", "Help [?]", "Next [→]"]);
    let one = split_at_width(&items, 40);
    assert_eq!(vec![items.clone()], one);
    let lines = split_at_width(&items, 18);
    assert_eq!(vec![hints(&["Quit [q]", "Help [?]"]), hints(&["Next [→]"])], lines);
    let narrow = split_at_width(&items, 5);
    assert_eq!(vec![hints(&["Quit [q]"]), hints(&["Help [?]"]), hints(&["Next [→]"])], narrow);
    assert_eq!(vec![Vec::<String>::new()], split_at_width(&Vec::new(), 10));
}
