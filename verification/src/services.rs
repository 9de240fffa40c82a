use vstd::prelude::*;

use crate::hivemq_rest_client::{cursor_parameter, get_cursor};
use crate::openapi::PaginationCursor;
use crate::repository::{delete_by_id_sql, delete_by_id_statement, save_sql, save_statement, Repository};
use crate::tabs::ServiceCall;
use vstd::string::StringExecFns;

verus! {

/// What loading does after a page of items was stored: fetch the page after the cursor, or
/// stop.
#[derive(Debug, PartialEq, Eq)]
pub enum LoadStep {
    NextPage(String),
    Done,
}

/// The step after a page whose `_links` are `links`: the next page when the page links to one
/// that has a cursor, else loading is complete.
pub fn after_page(links: Option<Option<Box<PaginationCursor>>>) -> (step: LoadStep)
    ensures
        match links {
            Some(Some(c)) => match c.next {
                Some(next) => match cursor_parameter(next@) {
                    Some(v) => step matches LoadStep::NextPage(cursor) && cursor@ == v,
                    None => step is Done,
                },
                None => step is Done,
            },
            _ => step is Done,
        },
{
    match get_cursor(links) {
        Some(cursor) => LoadStep::NextPage(cursor),
        None => LoadStep::Done,
    }
}

/// The statement that stores an item of a page, a JSON document under its id.
pub open spec fn item_save_sql(table: Seq<char>, item: (String, String)) -> Seq<char> {
    save_sql(table, item.0@, item.1@)
}

/// Stores the items of a page, each a JSON document under its id, in order; stops at the first
/// one the repository refuses and reports why. Gives the statements it handed to the database,
/// in order: those of the first items, the last of them the refused one where one was refused.
pub fn store_items(repository: &Repository, items: &Vec<(String, String)>) -> (r: (Vec<String>, Result<(), String>))
    ensures
        r.0@.len() <= items@.len(),
        forall|i: int| 0 <= i < r.0@.len() ==> (#[trigger] r.0@[i])@ == item_save_sql(repository.table(), items@[i]),
        r.1 is Ok ==> r.0@.len() == items@.len(),
        r.1 is Err ==> r.0@.len() > 0,
        items@.len() == 0 ==> r.1 is Ok,
{
    let mut ran: Vec<String> = Vec::new();
    let mut i: usize = 0;
    while i < items.len()
        invariant
            i <= items@.len(),
            ran@.len() == i,
            forall|k: int| 0 <= k < i ==> (#[trigger] ran@[k])@ == item_save_sql(repository.table(), items@[k]),
        decreases items@.len() - i,
    {
        let statement = save_statement(repository.table_name(), items[i].0.as_str(), items[i].1.as_str());
        let outcome = repository.run(statement.as_str());
        ran.push(statement);
        match outcome {
            Ok(_) => {},
            Err(e) => {
                return (ran, Err(e.message()));
            },
        }
        i = i + 1;
    }
    (ran, Ok(()))
}

/// Adds the client ids of a page to those gathered so far; fails, adding nothing, when a client
/// of the page has no id.
pub fn gather_client_ids(gathered: &mut Vec<String>, page: Vec<Option<String>>) -> (r: Result<(), String>)
    ensures
        (forall|i: int| 0 <= i < page@.len() ==> page@[i] is Some) ==> r is Ok && final(gathered)@.len()
            == old(gathered)@.len() + page@.len() && final(gathered)@.take(old(gathered)@.len() as int)
            == old(gathered)@ && forall|i: int|
            0 <= i < page@.len() ==> Some(#[trigger] final(gathered)@[old(gathered)@.len() + i]) == page@[i],
        (exists|i: int| 0 <= i < page@.len() && page@[i] is None) ==> (r matches Err(m) && m@
            == "Client id was empty"@ && final(gathered)@ == old(gathered)@),
{
    let mut k: usize = 0;
    while k < page.len()
        invariant
            k <= page@.len(),
            forall|i: int| 0 <= i < k ==> page@[i] is Some,
        decreases page@.len() - k,
    {
        if page[k].is_none() {
            return Err(String::from_str("Client id was empty"));
        }
        k = k + 1;
    }
    let ghost start = gathered@;
    let mut j: usize = 0;
    while j < page.len()
        invariant
            j <= page@.len(),
            forall|i: int| 0 <= i < page@.len() ==> page@[i] is Some,
            gathered@.len() == start.len() + j,
            gathered@.take(start.len() as int) == start,
            forall|i: int| 0 <= i < j ==> Some(#[trigger] gathered@[start.len() + i]) == page@[i],
        decreases page@.len() - j,
    {
        match &page[j] {
            Some(id) => {
                let ghost before = gathered@;
                gathered.push(id.clone());
                assert(gathered@.take(start.len() as int) =~= before.take(start.len() as int));
            },
            None => {},
        }
        j = j + 1;
    }
    Ok(())
}

/// After the service deleted the item `id`: removes it from the repository too, and reports
/// the id, or why the repository failed. Gives the statement it handed to the database.
pub fn forget_deleted(repository: &Repository, id: String) -> (r: (String, Result<String, String>))
    ensures
        r.0@ == delete_by_id_sql(repository.table(), id@),
        r.1 matches Ok(d) ==> d == id,
{
    let statement = delete_by_id_statement(repository.table_name(), id.as_str());
    match repository.run(statement.as_str()) {
        Ok(_) => (statement, Ok(id)),
        Err(e) => (statement, Err(e.message())),
    }
}

/// After the service gave back the item `json` with id `id`: stores it in the repository too,
/// and reports the id, or why the repository failed. Gives the statement it handed to the
/// database.
pub fn remember_returned(repository: &Repository, id: String, json: &str) -> (r: (String, Result<String, String>))
    ensures
        r.0@ == save_sql(repository.table(), id@, json@),
        r.1 matches Ok(d) ==> d == id,
{
    let statement = save_statement(repository.table_name(), id.as_str(), json);
    match repository.run(statement.as_str()) {
        Ok(_) => (statement, Ok(id)),
        Err(e) => (statement, Err(e.message())),
    }
}

/// What a tab makes of the service's answer `result` to `call`, before it reports the
/// outcome (see `tabs::call_finished`): after a deletion the item is forgotten by the
/// repository; an item that the service gave back is stored there; an answer without an item
/// reports an empty id; a failed call passes its message on. Gives the statement handed to
/// the database, if one was.
pub fn call_outcome(
    repository: &Repository,
    call: &ServiceCall,
    result: Result<Option<(String, String)>, String>,
) -> (r: (Option<String>, Result<String, String>))
    ensures
        match (call, result) {
            (ServiceCall::Delete(id), Ok(_)) => r.0 matches Some(s) && s@ == delete_by_id_sql(repository.table(), id@)
                && (r.1 matches Ok(d) ==> d == id),
            (_, Ok(Some((id, json)))) => r.0 matches Some(s) && s@ == save_sql(repository.table(), id@, json@) && (
            r.1 matches Ok(d) ==> d == id),
            (_, Ok(None)) => r.0 is None && (r.1 matches Ok(d) && d@ == Seq::<char>::empty()),
            (_, Err(e)) => r.0 is None && r.1 == Err::<String, String>(e),
        },
{
    match (call, result) {
        (ServiceCall::Delete(id), Ok(_)) => {
            let (statement, outcome) = forget_deleted(repository, id.clone());
            (Some(statement), outcome)
        },
        (_, Ok(Some((id, json)))) => {
            let (statement, outcome) = remember_returned(repository, id, json.as_str());
            (Some(statement), outcome)
        },
        (_, Ok(None)) => (None, Ok(String::new())),
        (_, Err(e)) => (None, Err(e)),
    }
}

} // verus!
