use hmq_tui::hivemq_rest_client::{api_error_message, build_rest_api_config, get_cursor};
use hmq_tui::openapi::PaginationCursor;
use hmq_tui::services::{after_page, gather_client_ids, LoadStep};

fn links(next: Option<&str>) -> Option<Option<Box<PaginationCursor>>> {
    Some(Some(Box::new(PaginationCursor { next: next.map(|s| s.to_string()) })))
}

#[test]
fn cursor_is_read_from_the_next_link() {
    assert_eq!(Some("foobar1".to_string()), get_cursor(links(Some("/api/v1/data-hub/schemas?cursor=foobar1"))));
    assert_eq!(Some("abc".to_string()), get_cursor(links(Some("/api?limit=10&cursor=abc&x=1"))));
    assert_eq!(Some(String::new()), get_cursor(links(Some("/api?cursor=&x=1"))));
    assert_eq!(None, get_cursor(links(Some("/api?limit=10"))));
    assert_eq!(None, get_cursor(links(None)));
    assert_eq!(None, get_cursor(Some(None)));
    assert_eq!(None, get_cursor(None));
}

#[test]
fn loading_goes_on_while_there_is_a_cursor() {
    assert_eq!(LoadStep::NextPage("c2".to_string()), after_page(links(Some("/x?cursor=c2"))));
    assert_eq!(LoadStep::Done, after_page(None));
}

#[test]
fn configuration_and_errors() {
    let config = build_rest_api_config("http://localhost:8888".to_string());
    assert_eq!("http://localhost:8888", config.base_path);
    assert_eq!(Some("OpenAPI-Generator/4.21.0/rust".to_string()), config.user_agent);
    assert_eq!("API request failed: 503", api_error_message("503"));
}

#[test]
fn client_ids_are_gathered_page_by_page() {
    let mut ids = vec!["a".to_string()];
    assert_eq!(Ok(()), gather_client_ids(&mut ids, vec![Some("b".to_string()), Some("c".to_string())]));
    assert_eq!(vec!["a".to_string(), "b".to_string(), "c".to_string()], ids);
    assert_eq!(
        Err("Client id was empty".to_string()),
        gather_client_ids(&mut ids, vec![Some("d".to_string()), None])
    );
    assert_eq!(3, ids.len());
}

#[test]
fn pages_are_stored_and_deleted_items_forgotten() {
    use_repository();
}

fn use_repository() {
    let pool = hmq_tui::repository::in_memory_pool().unwrap();
    let repository = hmq_tui::repository::Repository::init(&pool, "schemas").unwrap();
    let items = vec![("s1".to_string(), "{\"id\":\"s1\"}".to_string()), ("s2".to_string(), "{\"id\":\"s2\"}".to_string())];
    let (ran, stored) = hmq_tui::services::store_items(&repository, &items);
    assert_eq!(Ok(()), stored);
    assert_eq!(
        vec![
            hmq_tui::repository::save_statement("schemas", "s1", "{\"id\":\"s1\"}"),
            hmq_tui::repository::save_statement("schemas", "s2", "{\"id\":\"s2\"}"),
        ],
        ran
    );
    assert_eq!(vec!["s1".to_string(), "s2".to_string()], repository.find_all_ids().unwrap());
    let (statement, forgotten) = hmq_tui::services::forget_deleted(&repository, "s1".to_string());
    assert_eq!(Ok("s1".to_string()), forgotten);
    assert_eq!(hmq_tui::repository::delete_by_id_statement("schemas", "s1"), statement);
    assert_eq!(vec!["s2".to_string()], repository.find_all_ids().unwrap());
}

#[test]
fn an_empty_page_stores_nothing() {
    let pool = hmq_tui::repository::in_memory_pool().unwrap();
    let repository = hmq_tui::repository::Repository::init(&pool, "scripts").unwrap();
    let (ran, stored) = hmq_tui::services::store_items(&repository, &Vec::new());
    assert_eq!(Ok(()), stored);
    assert!(ran.is_empty());
    assert!(repository.find_all_ids().unwrap().is_empty());
}

#[test]
fn a_refused_item_stops_storing() {
    let pool = hmq_tui::repository::in_memory_pool().unwrap();
    let repository = hmq_tui::repository::Repository::init(&pool, "policies").unwrap();
    let items = vec![
        ("p1".to_string(), "{\"id\":\"p1\"}".to_string()),
        ("p2".to_string(), "not json".to_string()),
        ("p3".to_string(), "{\"id\":\"p3\"}".to_string()),
    ];
    let (ran, stored) = hmq_tui::services::store_items(&repository, &items);
    assert!(stored.is_err());
    assert_eq!(2, ran.len());
    assert_eq!(vec!["p1".to_string()], repository.find_all_ids().unwrap());
}

#[test]
fn service_answers_become_outcomes() {
    let pool = hmq_tui::repository::in_memory_pool().unwrap();
    let repository = hmq_tui::repository::Repository::init(&pool, "scripts").unwrap();
    let (statement, created) = hmq_tui::services::call_outcome(
        &repository,
        &hmq_tui::tabs::ServiceCall::Create("{}".to_string()),
        Ok(Some(("c1".to_string(), "{\"id\":\"c1\"}".to_string()))),
    );
    assert_eq!(Ok("c1".to_string()), created);
    assert_eq!(Some(hmq_tui::repository::save_statement("scripts", "c1", "{\"id\":\"c1\"}")), statement);
    assert_eq!(vec!["c1".to_string()], repository.find_all_ids().unwrap());
    let (statement, none) = hmq_tui::services::call_outcome(&repository, &hmq_tui::tabs::ServiceCall::StartBackup, Ok(None));
    assert_eq!((None, Ok(String::new())), (statement, none));
    let (statement, failed) = hmq_tui::services::call_outcome(&repository, &hmq_tui::tabs::ServiceCall::Update("{}".to_string()), Err("down".to_string()));
    assert_eq!((None, Err("down".to_string())), (statement, failed));
    let (_, deleted) = hmq_tui::services::call_outcome(&repository, &hmq_tui::tabs::ServiceCall::Delete("c1".to_string()), Ok(None));
    assert_eq!(Ok("c1".to_string()), deleted);
    assert!(repository.find_all_ids().unwrap().is_empty());
}
