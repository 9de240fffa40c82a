use hmq_tui::list_with_details::ListPane;
use hmq_tui::views::{ClientsView, DetailsView, ViewDetails, ViewState};

fn view(state: ViewState) -> DetailsView {
    DetailsView { list_title: "Policies".to_string(), details_title: "Policy".to_string(), state }
}

fn clients(selected: Option<usize>, details: Vec<(String, Result<String, String>)>) -> ClientsView {
    ClientsView {
        client_ids: vec!["c1".to_string(), "c2".to_string()],
        selected,
        client_details: details,
        is_loading_client_ids: false,
        clients_loading_error: None,
    }
}

#[test]
fn a_details_view_counts_its_items_and_lays_out_the_selected_one() {
    let items = vec![("p1".to_string(), "{\"id\":\"p1\"}".to_string()), ("p2".to_string(), "{}".to_string())];
    let (list, details) = view(ViewState::Loaded { items, selected: Some(0) }).panes();
    assert_eq!(
        ListPane::Items {
            title: "Policies (1/2)".to_string(),
            filter_title: None,
            lines: vec!["p1".to_string(), "p2".to_string()],
            selected: Some(0),
            dimmed: false,
        },
        list
    );
    assert_eq!(
        ViewDetails::Document { title: "Policy".to_string(), text: Some("{\n  \"id\": \"p1\"\n}".to_string()) },
        details
    );
    let (list, details) = view(ViewState::Loaded { items: vec![], selected: None }).panes();
    assert!(matches!(list, ListPane::Items { ref title, .. } if title == "Policies (0/0)"));
    assert_eq!(ViewDetails::Blank { title: "Policy".to_string() }, details);
}

#[test]
fn a_details_view_shows_loading_and_failure() {
    let (list, details) = view(ViewState::Loading).panes();
    assert_eq!(ListPane::Loading { title: "Loading Policies...".to_string() }, list);
    assert_eq!(ViewDetails::Blank { title: "Policy".to_string() }, details);
    let (list, _) = view(ViewState::Error("offline".to_string())).panes();
    assert_eq!(
        ListPane::Failed { title: "Loading Policies failed".to_string(), message: "offline".to_string() },
        list
    );
}

#[test]
fn the_clients_view_asks_for_missing_details() {
    let (list, details, load) = clients(Some(1), vec![]).panes();
    assert!(matches!(list, ListPane::Items { ref title, .. } if title == "Clients (2/2)"));
    assert_eq!(ViewDetails::Blank { title: "Details".to_string() }, details);
    assert_eq!(Some("c2".to_string()), load);
    let (_, details, load) = clients(Some(0), vec![("c1".to_string(), Ok("connected".to_string()))]).panes();
    assert_eq!(ViewDetails::Text { title: "Details".to_string(), text: "connected".to_string() }, details);
    assert_eq!(None, load);
    let (_, details, _) = clients(Some(0), vec![("c1".to_string(), Err("gone".to_string()))]).panes();
    assert_eq!(
        ViewDetails::Failed { title: "Loading Client Details failed".to_string(), message: "gone".to_string() },
        details
    );
    let (_, details, load) = clients(None, vec![]).panes();
    assert_eq!((ViewDetails::Blank { title: "Details".to_string() }, None), (details, load));
}

#[test]
fn the_clients_view_shows_loading_and_failure() {
    let mut v = clients(None, vec![]);
    v.is_loading_client_ids = true;
    assert_eq!(ListPane::Loading { title: "Loading Clients...".to_string() }, v.panes().0);
    v.is_loading_client_ids = false;
    v.clients_loading_error = Some("refused".to_string());
    assert_eq!(
        ListPane::Failed { title: "Loading Clients failed".to_string(), message: "refused".to_string() },
        v.panes().0
    );
}
