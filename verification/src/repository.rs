use vstd::prelude::*;

use r2d2::{Pool, PooledConnection};
use r2d2_sqlite::SqliteConnectionManager;

use crate::text::{chars_of, string_of};
use vstd::string::StringExecFns;

verus! {

/// A pool of connections to a SQLite database (`r2d2::Pool` of `SqliteConnectionManager`).
/// Verus cannot be told of the pool type itself, whose type parameter is bound by an outside
/// trait, so it is held here, out of Verus's sight.
#[verifier::external_body]
pub struct SqlitePool {
    pub pool: Pool<SqliteConnectionManager>,
}

/// A connection taken from a `SqlitePool` (`r2d2::PooledConnection`), held out of Verus's sight
/// for the same reason.
#[verifier::external_body]
pub struct SqliteConnection {
    conn: PooledConnection<SqliteConnectionManager>,
}

#[verifier::external_type_specification]
#[verifier::external_body]
pub struct ExPoolError(r2d2::Error);

#[verifier::external_type_specification]
#[verifier::external_body]
pub struct ExSqlError(rusqlite::Error);

/// Why a repository operation failed.
#[derive(Debug)]
pub enum RepositoryError {
    /// No connection could be taken from the pool.
    PoolError(r2d2::Error),
    /// The database refused or failed the statement.
    SqlError(rusqlite::Error),
}

/// The message of a pool error (its `Display` text, `ToString::to_string`).
#[verifier::external_body]
fn pool_error_text(e: &r2d2::Error) -> String {
    e.to_string()
}

/// The message of a database error (its `Display` text, `ToString::to_string`).
#[verifier::external_body]
fn sql_error_text(e: &rusqlite::Error) -> String {
    e.to_string()
}

impl RepositoryError {
    /// A message that tells a user what failed.
    pub fn message(&self) -> String {
        match self {
            RepositoryError::PoolError(e) => pool_error_text(e),
            RepositoryError::SqlError(e) => sql_error_text(e),
        }
    }
}

/// A table of JSON documents keyed by id, in a SQLite database.
pub struct Repository {
    connection_pool: SqlitePool,
    table_name: String,
}

/// Takes a connection from the pool (`r2d2::Pool::get`). Whether one is available depends
/// on the pool's state, so nothing is promised of the result.
#[verifier::external_body]
fn pool_get(pool: &SqlitePool) -> Result<SqliteConnection, r2d2::Error> {
    pool.pool.get().map(|conn| SqliteConnection { conn })
}

/// Another handle on the same pool (`r2d2::Pool::clone`).
#[verifier::external_body]
fn pool_clone(pool: &SqlitePool) -> SqlitePool {
    SqlitePool { pool: pool.pool.clone() }
}

/// Runs a statement without parameters (`rusqlite::Connection::execute`) and gives the
/// number of rows changed. The outcome depends on the database's contents, so nothing is
/// promised of it.
#[verifier::external_body]
fn execute(conn: &SqliteConnection, sql: &str) -> Result<usize, rusqlite::Error> {
    conn.conn.execute(sql, [])
}

/// Runs a query and reads the text column `column` of its first row
/// (`rusqlite::Connection::query_row`, with `Row::get` as the row mapping). The outcome depends
/// on the database's contents, so nothing is promised of it.
#[verifier::external_body]
fn query_row_text(conn: &SqliteConnection, sql: &str, column: &str) -> Result<String, rusqlite::Error> {
    conn.conn.query_row(sql, [], |row| row.get::<_, String>(column))
}

/// Prepares a query and reads the text column `column` of every row, in the order the
/// database gives them (`rusqlite::Connection::prepare`, `Statement::query_map` with `Row::get`
/// as the row mapping). The outcome depends on the database's contents, so nothing is promised
/// of it.
#[verifier::external_body]
fn query_column(conn: &SqliteConnection, sql: &str, column: &str) -> Result<Vec<Result<String, rusqlite::Error>>, rusqlite::Error> {
    let mut statement = conn.conn.prepare(sql)?;
    let rows = statement.query_map([], |row| row.get::<_, String>(column))?;
    Ok(rows.collect())
}

/// The statement that creates the table.
pub open spec fn create_table_sql(table: Seq<char>) -> Seq<char> {
    "\n        CREATE TABLE "@ + table + "(\n            id STRING PRIMARY KEY,\n            data JSON\n        );\n        "@
}

/// The statement that stores a document under an id, replacing any document stored there.
pub open spec fn save_sql(table: Seq<char>, id: Seq<char>, json: Seq<char>) -> Seq<char> {
    "\n        REPLACE INTO "@ + table + " (id, data)\n        VALUES ('"@ + id + "', json('"@ + json + "'));\n        "@
}

/// The query for the document stored under an id.
pub open spec fn find_by_id_sql(table: Seq<char>, id: Seq<char>) -> Seq<char> {
    "\n        SELECT *\n        FROM "@ + table + "\n        WHERE id='"@ + id + "'\n        "@
}

/// The query for the `column` of the documents whose value at `json_path` contains `to_match`.
pub open spec fn find_by_sql(column: Seq<char>, table: Seq<char>, json_path: Seq<char>, to_match: Seq<char>) -> Seq<char> {
    "\n        SELECT "@ + column + "\n        FROM "@ + table + "\n        WHERE data -> '"@ + json_path + "' LIKE '%"@ + to_match
        + "%'"@
}

/// The query for the `column` of every document.
pub open spec fn find_all_sql(column: Seq<char>, table: Seq<char>) -> Seq<char> {
    "\n        SELECT "@ + column + "\n        FROM "@ + table
}

/// The statement that deletes the document stored under an id.
pub open spec fn delete_by_id_sql(table: Seq<char>, id: Seq<char>) -> Seq<char> {
    "\n        DELETE\n        FROM "@ + table + "\n        WHERE id='"@ + id + "'\n        "@
}

/// The statement that deletes every document.
pub open spec fn delete_all_sql(table: Seq<char>) -> Seq<char> {
    "\n        DELETE\n        FROM "@ + table + "\n        "@
}

/// Appends the characters of a string slice.
fn push_text(v: &mut Vec<char>, s: &str)
    ensures
        final(v)@ == old(v)@ + s@,
{
    let mut c = chars_of(s);
    v.append(&mut c);
}

/// Appends characters.
fn push_chars(v: &mut Vec<char>, s: &[char])
    ensures
        final(v)@ == old(v)@ + s@,
{
    let mut i: usize = 0;
    while i < s.len()
        invariant
            i <= s@.len(),
            v@ == old(v)@ + s@.take(i as int),
        decreases s@.len() - i,
    {
        v.push(s[i]);
        assert(s@.take(i + 1) =~= s@.take(i as int).push(s@[i as int]));
        assert(old(v)@ + s@.take(i + 1) =~= (old(v)@ + s@.take(i as int)).push(s@[i as int]));
        i = i + 1;
    }
    assert(s@.take(s@.len() as int) =~= s@);
}

/// Builds `a + x + b`.
fn sandwich(a: &str, x: &[char], b: &str) -> (s: String)
    ensures
        s@ == a@ + x@ + b@,
{
    let mut v: Vec<char> = Vec::new();
    push_text(&mut v, a);
    push_chars(&mut v, x);
    push_text(&mut v, b);
    assert(v@ =~= a@ + x@ + b@);
    string_of(v.as_slice())
}

/// Builds `a + x + b + y + c`.
fn sandwich2(a: &str, x: &[char], b: &str, y: &[char], c: &str) -> (s: String)
    ensures
        s@ == a@ + x@ + b@ + y@ + c@,
{
    let mut v: Vec<char> = Vec::new();
    push_text(&mut v, a);
    push_chars(&mut v, x);
    push_text(&mut v, b);
    push_chars(&mut v, y);
    push_text(&mut v, c);
    assert(v@ =~= a@ + x@ + b@ + y@ + c@);
    string_of(v.as_slice())
}

pub fn create_table_statement(table: &str) -> (s: String)
    ensures
        s@ == create_table_sql(table@),
{
    let t = chars_of(table);
    sandwich(
        "\n        CREATE TABLE ",
        t.as_slice(),
        "(\n            id STRING PRIMARY KEY,\n            data JSON\n        );\n        ",
    )
}

pub fn save_statement(table: &str, id: &str, json: &str) -> (s: String)
    ensures
        s@ == save_sql(table@, id@, json@),
{
    let mut v: Vec<char> = Vec::new();
    push_text(&mut v, "\n        REPLACE INTO ");
    push_text(&mut v, table);
    push_text(&mut v, " (id, data)\n        VALUES ('");
    push_text(&mut v, id);
    push_text(&mut v, "', json('");
    push_text(&mut v, json);
    push_text(&mut v, "'));\n        ");
    assert(v@ =~= save_sql(table@, id@, json@));
    string_of(v.as_slice())
}

pub fn find_by_id_statement(table: &str, id: &str) -> (s: String)
    ensures
        s@ == find_by_id_sql(table@, id@),
{
    let t = chars_of(table);
    let i = chars_of(id);
    sandwich2("\n        SELECT *\n        FROM ", t.as_slice(), "\n        WHERE id='", i.as_slice(), "'\n        ")
}

pub fn find_by_statement(column: &str, table: &str, json_path: &str, to_match: &str) -> (s: String)
    ensures
        s@ == find_by_sql(column@, table@, json_path@, to_match@),
{
    let mut v: Vec<char> = Vec::new();
    push_text(&mut v, "\n        SELECT ");
    push_text(&mut v, column);
    push_text(&mut v, "\n        FROM ");
    push_text(&mut v, table);
    push_text(&mut v, "\n        WHERE data -> '");
    push_text(&mut v, json_path);
    push_text(&mut v, "' LIKE '%");
    push_text(&mut v, to_match);
    push_text(&mut v, "%'");
    assert(v@ =~= find_by_sql(column@, table@, json_path@, to_match@));
    string_of(v.as_slice())
}

pub fn find_all_statement(column: &str, table: &str) -> (s: String)
    ensures
        s@ == find_all_sql(column@, table@),
{
    let mut v: Vec<char> = Vec::new();
    push_text(&mut v, "\n        SELECT ");
    push_text(&mut v, column);
    push_text(&mut v, "\n        FROM ");
    push_text(&mut v, table);
    assert(v@ =~= find_all_sql(column@, table@));
    string_of(v.as_slice())
}

pub fn delete_by_id_statement(table: &str, id: &str) -> (s: String)
    ensures
        s@ == delete_by_id_sql(table@, id@),
{
    let t = chars_of(table);
    let i = chars_of(id);
    sandwich2("\n        DELETE\n        FROM ", t.as_slice(), "\n        WHERE id='", i.as_slice(), "'\n        ")
}

pub fn delete_all_statement(table: &str) -> (s: String)
    ensures
        s@ == delete_all_sql(table@),
{
    let t = chars_of(table);
    sandwich("\n        DELETE\n        FROM ", t.as_slice(), "\n        ")
}

/// The values of the rows that were read, in order; rows that failed are left out.
pub open spec fn ok_rows(rows: Seq<Result<String, rusqlite::Error>>) -> Seq<Seq<char>>
    decreases rows.len(),
{
    if rows.len() == 0 {
        Seq::empty()
    } else {
        let rest = ok_rows(rows.drop_last());
        match rows.last() {
            Ok(s) => rest.push(s@),
            Err(_) => rest,
        }
    }
}

/// Keeps the rows that were read and drops those that failed.
pub fn collect_ok_rows(rows: Vec<Result<String, rusqlite::Error>>) -> (values: Vec<String>)
    ensures
        values@.map_values(|s: String| s@) == ok_rows(rows@),
{
    let mut values: Vec<String> = Vec::new();
    let mut i: usize = 0;
    while i < rows.len()
        invariant
            i <= rows@.len(),
            values@.map_values(|s: String| s@) == ok_rows(rows@.take(i as int)),
        decreases rows@.len() - i,
    {
        assert(rows@.take(i + 1).drop_last() =~= rows@.take(i as int));
        match &rows[i] {
            Ok(s) => {
                let ghost before = values@;
                values.push(s.clone());
                assert(values@.map_values(|s: String| s@) =~= before.map_values(|s: String| s@).push(s@));
            },
            Err(_) => {},
        }
        i = i + 1;
    }
    assert(rows@.take(rows@.len() as int) =~= rows@);
    values
}

/// Builds a pool over in-memory databases (`r2d2::Pool::new` of
/// `SqliteConnectionManager::memory`). Whether it can be built depends on the machine, so
/// nothing is promised of the result.
#[verifier::external_body]
fn memory_pool() -> Result<SqlitePool, r2d2::Error> {
    Pool::new(SqliteConnectionManager::memory()).map(|pool| SqlitePool { pool })
}

/// A pool of connections to in-memory databases, in which the repositories keep their tables.
pub fn in_memory_pool() -> Result<SqlitePool, RepositoryError> {
    match memory_pool() {
        Ok(pool) => Ok(pool),
        Err(e) => Err(RepositoryError::PoolError(e)),
    }
}

/// Text framed by the same text on both sides is determined by the frame: equal framings frame
/// equal texts.
pub proof fn lemma_framed_text(pre: Seq<char>, x: Seq<char>, y: Seq<char>, suf: Seq<char>)
    requires
        pre + x + suf == pre + y + suf,
    ensures
        x == y,
{
    let a = pre + x + suf;
    let b = pre + y + suf;
    assert(a.len() == b.len());
    assert(x.len() == y.len());
    assert forall|i: int| 0 <= i < x.len() implies x[i] == y[i] by {
        assert(a[pre.len() + i] == x[i]);
        assert(b[pre.len() + i] == y[i]);
    }
    assert(x =~= y);
}

/// The statement that deletes by id deletes the row of that id and no other: it differs from the
/// statement for any other id, and from the statement that deletes every row.
pub proof fn lemma_delete_by_id_targets_its_id(table: Seq<char>, id: Seq<char>, other: Seq<char>)
    ensures
        other != id ==> delete_by_id_sql(table, id) != delete_by_id_sql(table, other),
        delete_by_id_sql(table, id) != delete_all_sql(table),
{
    reveal_strlit("\n        DELETE\n        FROM ");
    reveal_strlit("\n        WHERE id='");
    reveal_strlit("'\n        ");
    reveal_strlit("\n        ");
    let pre = "\n        DELETE\n        FROM "@ + table + "\n        WHERE id='"@;
    let suf = "'\n        "@;
    if delete_by_id_sql(table, id) == delete_by_id_sql(table, other) {
        assert(delete_by_id_sql(table, id) =~= pre + id + suf);
        assert(delete_by_id_sql(table, other) =~= pre + other + suf);
        lemma_framed_text(pre, id, other, suf);
    }
    assert(delete_by_id_sql(table, id).len() > delete_all_sql(table).len());
}

/// The query for the document stored under an id asks for that id only: other ids give other
/// queries.
pub proof fn lemma_find_by_id_targets_its_id(table: Seq<char>, id: Seq<char>, other: Seq<char>)
    ensures
        other != id ==> find_by_id_sql(table, id) != find_by_id_sql(table, other),
{
    let pre = "\n        SELECT *\n        FROM "@ + table + "\n        WHERE id='"@;
    let suf = "'\n        "@;
    if find_by_id_sql(table, id) == find_by_id_sql(table, other) {
        assert(find_by_id_sql(table, id) =~= pre + id + suf);
        assert(find_by_id_sql(table, other) =~= pre + other + suf);
        lemma_framed_text(pre, id, other, suf);
    }
}

/// The statement that stores a document stores it under its id: for the same document, other ids
/// give other statements.
pub proof fn lemma_save_targets_its_id(table: Seq<char>, id: Seq<char>, other: Seq<char>, json: Seq<char>)
    ensures
        other != id ==> save_sql(table, id, json) != save_sql(table, other, json),
{
    let pre = "\n        REPLACE INTO "@ + table + " (id, data)\n        VALUES ('"@;
    let suf = "', json('"@ + json + "'));\n        "@;
    if save_sql(table, id, json) == save_sql(table, other, json) {
        assert(save_sql(table, id, json) =~= pre + id + suf);
        assert(save_sql(table, other, json) =~= pre + other + suf);
        lemma_framed_text(pre, id, other, suf);
    }
}

/// A query by JSON path asks for what it names: other paths, or other texts to match, give other
/// queries.
pub proof fn lemma_find_by_targets_its_path_and_text(
    column: Seq<char>,
    table: Seq<char>,
    json_path: Seq<char>,
    to_match: Seq<char>,
    other_path: Seq<char>,
    other_match: Seq<char>,
)
    ensures
        other_path != json_path ==> find_by_sql(column, table, json_path, to_match) != find_by_sql(
            column,
            table,
            other_path,
            to_match,
        ),
        other_match != to_match ==> find_by_sql(column, table, json_path, to_match) != find_by_sql(
            column,
            table,
            json_path,
            other_match,
        ),
{
    let head = "\n        SELECT "@ + column + "\n        FROM "@ + table + "\n        WHERE data -> '"@;
    let tail = "' LIKE '%"@ + to_match + "%'"@;
    if find_by_sql(column, table, json_path, to_match) == find_by_sql(column, table, other_path, to_match) {
        assert(find_by_sql(column, table, json_path, to_match) =~= head + json_path + tail);
        assert(find_by_sql(column, table, other_path, to_match) =~= head + other_path + tail);
        lemma_framed_text(head, json_path, other_path, tail);
    }
    let head2 = head + json_path + "' LIKE '%"@;
    let tail2 = "%'"@;
    if find_by_sql(column, table, json_path, to_match) == find_by_sql(column, table, json_path, other_match) {
        assert(find_by_sql(column, table, json_path, to_match) =~= head2 + to_match + tail2);
        assert(find_by_sql(column, table, json_path, other_match) =~= head2 + other_match + tail2);
        lemma_framed_text(head2, to_match, other_match, tail2);
    }
}

impl Repository {
    pub closed spec fn table(&self) -> Seq<char> {
        self.table_name@
    }

    /// Creates the table `table_name` in the pooled database and a repository over it.
    pub fn init(connection_pool: &SqlitePool, table_name: &str) -> (r: Result<Repository, RepositoryError>)
        ensures
            r matches Ok(repo) ==> repo.table() == table_name@,
    {
        let conn = match pool_get(connection_pool) {
            Ok(c) => c,
            Err(e) => {
                return Err(RepositoryError::PoolError(e));
            },
        };
        let statement = create_table_statement(table_name);
        match execute(&conn, statement.as_str()) {
            Ok(_) => {},
            Err(e) => {
                return Err(RepositoryError::SqlError(e));
            },
        }
        Ok(Repository { connection_pool: pool_clone(connection_pool), table_name: String::from_str(table_name) })
    }

    /// The name of the table.
    pub fn table_name(&self) -> (t: &str)
        ensures
            t@ == self.table(),
    {
        self.table_name.as_str()
    }

    /// Runs a statement on the table's database.
    pub(crate) fn run(&self, statement: &str) -> (r: Result<(), RepositoryError>) {
        let conn = match pool_get(&self.connection_pool) {
            Ok(c) => c,
            Err(e) => {
                return Err(RepositoryError::PoolError(e));
            },
        };
        match execute(&conn, statement) {
            Ok(_) => Ok(()),
            Err(e) => Err(RepositoryError::SqlError(e)),
        }
    }

    /// Stores the JSON document `json` under `id`, replacing what was stored there. Gives the
    /// statement that the database ran.
    pub fn save(&self, id: &str, json: &str) -> (r: Result<String, RepositoryError>)
        ensures
            r matches Ok(s) ==> s@ == save_sql(self.table(), id@, json@),
    {
        let statement = save_statement(self.table_name.as_str(), id, json);
        match self.run(statement.as_str()) {
            Ok(()) => Ok(statement),
            Err(e) => Err(e),
        }
    }

    /// The JSON document stored under `id`.
    pub fn find_by_id(&self, id: &str) -> (r: Result<String, RepositoryError>) {
        match self.find_entry(String::from_str(id)) {
            Ok((_, json)) => Ok(json),
            Err(e) => Err(e),
        }
    }

    /// The entry stored under `id`: that id with the JSON document the database reads for it.
    pub fn find_entry(&self, id: String) -> (r: Result<(String, String), RepositoryError>)
        ensures
            r matches Ok((k, _)) ==> k == id,
    {
        let conn = match pool_get(&self.connection_pool) {
            Ok(c) => c,
            Err(e) => {
                return Err(RepositoryError::PoolError(e));
            },
        };
        let statement = find_by_id_statement(self.table_name.as_str(), id.as_str());
        match query_row_text(&conn, statement.as_str(), "data") {
            Ok(json) => Ok((id, json)),
            Err(e) => Err(RepositoryError::SqlError(e)),
        }
    }

    /// Runs the query `statement` and reads the text column `column` of every row it gives;
    /// rows that cannot be read are left out.
    pub(crate) fn query_column_of(&self, statement: &str, column: &str) -> (r: Result<Vec<String>, RepositoryError>) {
        let conn = match pool_get(&self.connection_pool) {
            Ok(c) => c,
            Err(e) => {
                return Err(RepositoryError::PoolError(e));
            },
        };
        match query_column(&conn, statement, column) {
            Ok(rows) => Ok(collect_ok_rows(rows)),
            Err(e) => Err(RepositoryError::SqlError(e)),
        }
    }

    fn find_column(&self, column: &str, json_path: &str, to_match: &str, all: bool) -> (r: Result<Vec<String>, RepositoryError>) {
        let statement = if all {
            find_all_statement(column, self.table_name.as_str())
        } else {
            find_by_statement(column, self.table_name.as_str(), json_path, to_match)
        };
        self.query_column_of(statement.as_str(), column)
    }

    /// The JSON documents whose value at `json_path` contains `to_match`; rows that cannot be
    /// read are left out.
    pub fn find_by(&self, json_path: &str, to_match: &str) -> (r: Result<Vec<String>, RepositoryError>) {
        self.find_column("data", json_path, to_match, false)
    }

    /// The ids of the documents whose value at `json_path` contains `to_match`; rows that
    /// cannot be read are left out.
    pub fn find_ids_by(&self, json_path: &str, to_match: &str) -> (r: Result<Vec<String>, RepositoryError>) {
        self.find_column("id", json_path, to_match, false)
    }

    /// Every stored JSON document; rows that cannot be read are left out.
    pub fn find_all(&self) -> (r: Result<Vec<String>, RepositoryError>) {
        self.find_column("data", "", "", true)
    }

    /// The ids of every stored document; rows that cannot be read are left out.
    pub fn find_all_ids(&self) -> (r: Result<Vec<String>, RepositoryError>) {
        self.find_column("id", "", "", true)
    }

    /// Deletes the document stored under `id`, if any. Gives the statement that the database
    /// ran, which deletes the row of that id and no other (see `lemma_delete_by_id_targets_its_id`).
    pub fn delete_by_id(&self, id: &str) -> (r: Result<String, RepositoryError>)
        ensures
            r matches Ok(s) ==> s@ == delete_by_id_sql(self.table(), id@),
    {
        let statement = delete_by_id_statement(self.table_name.as_str(), id);
        match self.run(statement.as_str()) {
            Ok(()) => Ok(statement),
            Err(e) => Err(e),
        }
    }

    /// Deletes every document. Gives the statement that the database ran.
    pub fn delete_all(&self) -> (r: Result<String, RepositoryError>)
        ensures
            r matches Ok(s) ==> s@ == delete_all_sql(self.table()),
    {
        let statement = delete_all_statement(self.table_name.as_str());
        match self.run(statement.as_str()) {
            Ok(()) => Ok(statement),
            Err(e) => Err(e),
        }
    }
}

} // verus!
