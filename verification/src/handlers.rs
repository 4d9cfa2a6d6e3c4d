//! The five request handlers. Each has two halves around the one statement
//! that it sends to the store: the half before checks what the client sent
//! and builds the statement, the half after turns the store's answer into
//! the response.

use crate::models::{Fields, Item, ItemId, NewItem, Row};
use crate::response::{rows_of, Response, ResponseView, StoreFailure};
use crate::statement::{Statement, StatementView};
use vstd::prelude::*;

verus! {

/// What the store answered to "every row": the rows, or its failure message.
pub open spec fn all_view(fetched: Result<Vec<Item>, StoreFailure>) -> Result<Seq<Row>, Seq<char>> {
    match fetched {
        Ok(items) => Ok(rows_of(items@)),
        Err(failure) => Err(failure@),
    }
}

/// What the store answered to "the row, if any": the row, none, or its
/// failure message.
pub open spec fn optional_view(fetched: Result<Option<Item>, StoreFailure>) -> Result<
    Option<Row>,
    Seq<char>,
> {
    match fetched {
        Ok(Some(item)) => Ok(Some(item@)),
        Ok(None) => Ok(None),
        Err(failure) => Err(failure@),
    }
}

/// What the store answered to "the one row": the row, or its failure message.
pub open spec fn one_view(fetched: Result<Item, StoreFailure>) -> Result<Row, Seq<char>> {
    match fetched {
        Ok(item) => Ok(item@),
        Err(failure) => Err(failure@),
    }
}

/// What the store answered to a statement that returns no rows: how many
/// rows it touched, or its failure message.
pub open spec fn count_view(executed: Result<u64, StoreFailure>) -> Result<u64, Seq<char>> {
    match executed {
        Ok(affected) => Ok(affected),
        Err(failure) => Err(failure@),
    }
}

/// What a statement builder decided: the statement to send, or the response
/// with which the request is turned away.
pub open spec fn plan_view(plan: Result<Statement, Response>) -> Result<StatementView, ResponseView> {
    match plan {
        Ok(statement) => Ok(statement@),
        Err(response) => Err(response@),
    }
}

/// The response to a listing: 200 with the rows, which may be none, or 500.
pub open spec fn listed(fetched: Result<Seq<Row>, Seq<char>>) -> ResponseView {
    match fetched {
        Ok(rows) => ResponseView::items(rows),
        Err(message) => ResponseView::failure(message),
    }
}

/// The response to a statement that hands back the row it was about, if
/// there is one: 200 with the row, 404 where there is none, or 500.
pub open spec fn shown(fetched: Result<Option<Row>, Seq<char>>) -> ResponseView {
    match fetched {
        Ok(Some(row)) => ResponseView::item(row),
        Ok(None) => ResponseView::not_found(),
        Err(message) => ResponseView::failure(message),
    }
}

/// The response to an insert: 200 with the new row, or 500.
pub open spec fn created(inserted: Result<Row, Seq<char>>) -> ResponseView {
    match inserted {
        Ok(row) => ResponseView::item(row),
        Err(message) => ResponseView::failure(message),
    }
}

/// The response to a delete: 204 where a row went, 404 where none did, or
/// 500.
pub open spec fn deleted(executed: Result<u64, Seq<char>>) -> ResponseView {
    match executed {
        Ok(affected) => if affected > 0 {
            ResponseView::no_content()
        } else {
            ResponseView::not_found()
        },
        Err(message) => ResponseView::failure(message),
    }
}

/// The statement of "get item by id".
pub open spec fn get_item_by_id_plan(id: Option<ItemId>) -> Result<StatementView, ResponseView> {
    match id {
        Some(id) => Ok(StatementView::SelectById { id }),
        None => Err(ResponseView::invalid_id()),
    }
}

/// The statement of "create item", for a new row under the identifier `id`.
pub open spec fn create_item_plan(id: ItemId, payload: Option<Fields>) -> Result<
    StatementView,
    ResponseView,
> {
    match payload {
        Some(fields) => Ok(StatementView::Insert { id, fields }),
        None => Err(ResponseView::invalid_payload()),
    }
}

/// The statement of "update item by id". The identifier is checked first.
pub open spec fn update_item_by_id_plan(id: Option<ItemId>, payload: Option<Fields>) -> Result<
    StatementView,
    ResponseView,
> {
    match (id, payload) {
        (Some(id), Some(fields)) => Ok(StatementView::Update { id, fields }),
        (Some(_), None) => Err(ResponseView::invalid_payload()),
        (None, _) => Err(ResponseView::invalid_id()),
    }
}

/// The statement of "delete item by id".
pub open spec fn delete_item_by_id_plan(id: Option<ItemId>) -> Result<StatementView, ResponseView> {
    match id {
        Some(id) => Ok(StatementView::Delete { id }),
        None => Err(ResponseView::invalid_id()),
    }
}

/// What a payload holds, if the body of the request was one.
pub open spec fn payload_view(payload: Option<NewItem>) -> Option<Fields> {
    match payload {
        Some(fields) => Some(fields@),
        None => None,
    }
}

/// "Get items" sends one statement, whatever the request holds.
pub fn get_items_statement() -> (statement: Statement)
    ensures
        statement@ == StatementView::SelectAll,
{
    Statement::SelectAll
}

/// "Get items" answers with every row the store returned: 200 also where
/// there are none. A store failure gives 500.
pub fn get_items(fetched: Result<Vec<Item>, StoreFailure>) -> (response: Response)
    ensures
        response@ == listed(all_view(fetched)),
{
    match fetched {
        Ok(items) => Response::items(items),
        Err(failure) => Response::failure(&failure),
    }
}

/// "Get item by id" asks for the row with the identifier that the path
/// held. `id` is what reading the path gave: without an identifier the
/// request is turned away with 400 and no statement is sent.
pub fn get_item_by_id_statement(id: Option<ItemId>) -> (plan: Result<Statement, Response>)
    ensures
        plan_view(plan) == get_item_by_id_plan(id),
{
    match id {
        Some(id) => Ok(Statement::SelectById { id }),
        None => Err(Response::invalid_id()),
    }
}

/// "Get item by id" answers 200 with the row, 404 where the store has none,
/// and 500 where the store failed.
pub fn get_item_by_id(fetched: Result<Option<Item>, StoreFailure>) -> (response: Response)
    ensures
        response@ == shown(optional_view(fetched)),
{
    match fetched {
        Ok(Some(item)) => Response::item(item),
        Ok(None) => Response::not_found(),
        Err(failure) => Response::failure(&failure),
    }
}

/// "Create item" inserts the payload under the identifier `id`, which the
/// caller has minted. `payload` is what reading the body gave: without a
/// payload the request is turned away with 400 and no statement is sent.
pub fn create_item_statement(id: ItemId, payload: Option<NewItem>) -> (plan: Result<
    Statement,
    Response,
>)
    ensures
        plan_view(plan) == create_item_plan(id, payload_view(payload)),
{
    match payload {
        Some(fields) => Ok(Statement::Insert { id, fields }),
        None => Err(Response::invalid_payload()),
    }
}

/// "Create item" answers 200 with the row as the store returned it, which
/// tells the client the new identifier, and 500 where the store failed.
pub fn create_item(inserted: Result<Item, StoreFailure>) -> (response: Response)
    ensures
        response@ == created(one_view(inserted)),
{
    match inserted {
        Ok(item) => Response::item(item),
        Err(failure) => Response::failure(&failure),
    }
}

/// "Update item by id" replaces all four fields of the row with the
/// identifier that the path held. Without an identifier, or without a
/// payload, the request is turned away with 400 and no statement is sent.
pub fn update_item_by_id_statement(id: Option<ItemId>, payload: Option<NewItem>) -> (plan: Result<
    Statement,
    Response,
>)
    ensures
        plan_view(plan) == update_item_by_id_plan(id, payload_view(payload)),
{
    match id {
        Some(id) => match payload {
            Some(fields) => Ok(Statement::Update { id, fields }),
            None => Err(Response::invalid_payload()),
        },
        None => Err(Response::invalid_id()),
    }
}

/// "Update item by id" answers 200 with the row as the store returned it
/// after the update, 404 where no row has the identifier, and 500 where the
/// store failed.
pub fn update_item_by_id(updated: Result<Option<Item>, StoreFailure>) -> (response: Response)
    ensures
        response@ == shown(optional_view(updated)),
{
    match updated {
        Ok(Some(item)) => Response::item(item),
        Ok(None) => Response::not_found(),
        Err(failure) => Response::failure(&failure),
    }
}

/// "Delete item by id" removes the row with the identifier that the path
/// held. Without an identifier the request is turned away with 400 and no
/// statement is sent.
pub fn delete_item_by_id_statement(id: Option<ItemId>) -> (plan: Result<Statement, Response>)
    ensures
        plan_view(plan) == delete_item_by_id_plan(id),
{
    match id {
        Some(id) => Ok(Statement::Delete { id }),
        None => Err(Response::invalid_id()),
    }
}

/// "Delete item by id" answers 204 without a body where the store removed a
/// row, 404 where it removed none, and 500 where the store failed.
pub fn delete_item_by_id(executed: Result<u64, StoreFailure>) -> (response: Response)
    ensures
        response@ == deleted(count_view(executed)),
{
    match executed {
        Ok(affected) => if affected > 0 {
            Response::no_content()
        } else {
            Response::not_found()
        },
        Err(failure) => Response::failure(&failure),
    }
}

} // verus!
