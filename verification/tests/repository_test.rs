use hmq_tui::repository::{
    collect_ok_rows, create_table_statement, delete_all_statement, delete_by_id_statement, find_all_statement,
    find_by_id_statement, find_by_statement, in_memory_pool, save_statement, Repository, RepositoryError, SqlitePool,
};
use serde_json::Value;

fn value(text: &str) -> Value {
    serde_json::from_str(text).unwrap()
}

fn init_repo(connection_pool: &SqlitePool) -> Repository {
    Repository::init(connection_pool, "test_values").unwrap()
}

fn save(repo: &Repository, item: &Value) {
    let id = item.get("id").unwrap().as_str().unwrap();
    repo.save(id, &serde_json::to_string(item).unwrap()).unwrap();
}

fn values(texts: Vec<String>) -> Vec<Value> {
    texts.iter().map(|t| value(t)).collect()
}

#[test]
fn test_save() {
    let connection_pool = in_memory_pool().unwrap();
    let repo = init_repo(&connection_pool);
    let expected = value(r#"{ "id": "id1", "val1": 2, "val2": true }"#);

    save(&repo, &expected);
    let actual = value(&repo.find_by_id("id1").unwrap());

    assert_eq!(expected, actual);
}

#[test]
fn test_find_by_id() {
    let connection_pool = in_memory_pool().unwrap();
    let repo = init_repo(&connection_pool);
    let expected1 = value(r#"{ "id": "id1", "val1": 2, "val2": true }"#);
    let expected2 = value(r#"{ "id": "id3", "val1": 2, "val2": true }"#);
    let expected3 = value(r#"{ "id": "id5", "val1": 2, "val2": true }"#);

    save(&repo, &expected1);
    save(&repo, &expected2);
    save(&repo, &expected3);

    assert_eq!(expected1, value(&repo.find_by_id("id1").unwrap()));
    assert_eq!(expected2, value(&repo.find_by_id("id3").unwrap()));
    assert_eq!(expected3, value(&repo.find_by_id("id5").unwrap()));
}

#[test]
fn test_find_by_query() {
    let connection_pool = in_memory_pool().unwrap();
    let repo = init_repo(&connection_pool);
    let expected1 = value(r#"{ "id": "id1", "val1": 2, "val2": true }"#);
    let expected2 = value(r#"{ "id": "id3", "val1": 2, "val2": true }"#);
    let expected3 = value(r#"{ "id": "id5", "val1": 3, "val2": true }"#);

    save(&repo, &expected1);
    save(&repo, &expected2);
    save(&repo, &expected3);

    assert_eq!(vec![expected1, expected2], values(repo.find_by("$.val1", "2").unwrap()));
    assert_eq!(vec![expected3], values(repo.find_by("$.val1", "3").unwrap()));
}

#[test]
fn test_find_all() {
    let connection_pool = in_memory_pool().unwrap();
    let repo = init_repo(&connection_pool);
    let expected1 = value(r#"{ "id": "id1", "val1": 2, "val2": true }"#);
    let expected2 = value(r#"{ "id": "id3", "val1": 2, "val2": true }"#);
    let expected3 = value(r#"{ "id": "id5", "val1": 2, "val2": true }"#);

    save(&repo, &expected1);
    save(&repo, &expected2);
    save(&repo, &expected3);

    assert_eq!(vec![expected1, expected2, expected3], values(repo.find_all().unwrap()));
}

#[test]
fn test_delete_by_id() {
    let connection_pool = in_memory_pool().unwrap();
    let repo = init_repo(&connection_pool);
    let expected = value(r#"{ "id": "id1", "val1": 2, "val2": true }"#);

    save(&repo, &expected);
    repo.delete_by_id("id3").unwrap();

    let error = repo.find_by_id("id3").unwrap_err();
    match error {
        RepositoryError::SqlError(rusqlite::Error::QueryReturnedNoRows) => {}
        _ => assert!(false),
    }
}

#[test]
fn test_delete_all() {
    let connection_pool = in_memory_pool().unwrap();
    let repo = init_repo(&connection_pool);
    let expected1 = value(r#"{ "id": "id1", "val1": 2, "val2": true }"#);
    let expected2 = value(r#"{ "id": "id3", "val1": 2, "val2": true }"#);
    let expected3 = value(r#"{ "id": "id5", "val1": 2, "val2": true }"#);

    save(&repo, &expected1);
    save(&repo, &expected2);
    save(&repo, &expected3);
    repo.delete_all().unwrap();

    assert_eq!(0, repo.find_all().unwrap().len());
}

#[test]
fn ids_are_found_by_query_and_in_full() {
    let connection_pool = in_memory_pool().unwrap();
    let repo = init_repo(&connection_pool);
    save(&repo, &value(r#"{ "id": "a", "name": "alpha" }"#));
    save(&repo, &value(r#"{ "id": "b", "name": "beta" }"#));
    assert_eq!(vec!["a".to_string(), "b".to_string()], repo.find_all_ids().unwrap());
    assert_eq!(vec!["b".to_string()], repo.find_ids_by("$.name", "et").unwrap());
    assert_eq!(Vec::<String>::new(), repo.find_ids_by("$.name", "zeta").unwrap());
}

#[test]
fn saving_again_replaces_the_document() {
    let connection_pool = in_memory_pool().unwrap();
    let repo = init_repo(&connection_pool);
    save(&repo, &value(r#"{ "id": "a", "v": 1 }"#));
    save(&repo, &value(r#"{ "id": "a", "v": 2 }"#));
    assert_eq!(value(r#"{ "id": "a", "v": 2 }"#), value(&repo.find_by_id("a").unwrap()));
    assert_eq!(1, repo.find_all().unwrap().len());
}

#[test]
fn statements_name_the_table_and_the_values() {
    assert_eq!(
        "\n        SELECT *\n        FROM schemas\n        WHERE id='s1'\n        ",
        find_by_id_statement("schemas", "s1")
    );
    assert_eq!(
        "\n        SELECT id\n        FROM schemas\n        WHERE data -> '$.id' LIKE '%x%'",
        find_by_statement("id", "schemas", "$.id", "x")
    );
    assert_eq!("\n        SELECT data\n        FROM t", find_all_statement("data", "t"));
    assert_eq!(
        "\n        REPLACE INTO t (id, data)\n        VALUES ('a', json('{}'));\n        ",
        save_statement("t", "a", "{}")
    );
    assert_eq!("\n        DELETE\n        FROM t\n        WHERE id='a'\n        ", delete_by_id_statement("t", "a"));
    assert_eq!("\n        DELETE\n        FROM t\n        ", delete_all_statement("t"));
    assert_eq!(
        "\n        CREATE TABLE t(\n            id STRING PRIMARY KEY,\n            data JSON\n        );\n        ",
        create_table_statement("t")
    );
}

#[test]
fn failed_rows_are_left_out() {
    let rows = vec![Ok("a".to_string()), Err(rusqlite::Error::QueryReturnedNoRows), Ok("b".to_string())];
    assert_eq!(vec!["a".to_string(), "b".to_string()], collect_ok_rows(rows));
}

#[test]
fn an_id_that_reads_as_a_number_is_stored_as_one() {
    let connection_pool = in_memory_pool().unwrap();
    let repo = init_repo(&connection_pool);
    repo.save("10", "{\"id\":\"10\"}").unwrap();
    repo.save("a", "{\"id\":\"a\"}").unwrap();
    assert_eq!(value("{\"id\":\"10\"}"), value(&repo.find_by_id("10").unwrap()));
    assert_eq!(vec!["a".to_string()], repo.find_all_ids().unwrap());
}

#[test]
fn a_document_is_read_back_as_the_database_rewrote_it() {
    let connection_pool = in_memory_pool().unwrap();
    let repo = init_repo(&connection_pool);
    repo.save("a", "{ \"id\": \"a\",  \"n\": 1 }").unwrap();
    assert_eq!("{\"id\":\"a\",\"n\":1}", repo.find_by_id("a").unwrap());
}

#[test]
fn a_table_is_created_once() {
    let connection_pool = in_memory_pool().unwrap();
    let _repo = init_repo(&connection_pool);
    assert!(Repository::init(&connection_pool, "test_values").is_err());
}
