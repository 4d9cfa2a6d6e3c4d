//! A request from its arrival to the response: which statement it leads to,
//! and what comes back when the statement is run on a table.

use crate::handlers::{
    create_item, create_item_plan, create_item_statement, created, delete_item_by_id,
    delete_item_by_id_plan, delete_item_by_id_statement, deleted, get_item_by_id,
    get_item_by_id_plan, get_item_by_id_statement, get_items, get_items_statement, listed,
    payload_view, plan_view, shown, update_item_by_id, update_item_by_id_plan,
    update_item_by_id_statement,
};
use crate::models::{Fields, ItemId, NewItem, Row};
use crate::response::{Response, ResponseView};
use crate::statement::{Statement, StatementView};
use crate::table::{found, lists, ItemTable, Rows};
use vstd::prelude::*;

verus! {

/// A request as it reaches the service: the operation, the identifier as the
/// path spelled it, and the payload if the body was one.
#[derive(Debug)]
pub enum Request {
    GetItems,
    GetItemById { id: String },
    CreateItem { payload: Option<NewItem> },
    UpdateItemById { id: String, payload: Option<NewItem> },
    DeleteItemById { id: String },
}

/// What a `Request` holds.
pub enum RequestView {
    GetItems,
    GetItemById { id: Seq<char> },
    CreateItem { payload: Option<Fields> },
    UpdateItemById { id: Seq<char>, payload: Option<Fields> },
    DeleteItemById { id: Seq<char> },
}

impl View for Request {
    type V = RequestView;

    open spec fn view(&self) -> RequestView {
        match self {
            Request::GetItems => RequestView::GetItems,
            Request::GetItemById { id } => RequestView::GetItemById { id: id@ },
            Request::CreateItem { payload } => RequestView::CreateItem {
                payload: payload_view(*payload),
            },
            Request::UpdateItemById { id, payload } => RequestView::UpdateItemById {
                id: id@,
                payload: payload_view(*payload),
            },
            Request::DeleteItemById { id } => RequestView::DeleteItemById { id: id@ },
        }
    }
}

impl RequestView {
    /// Whether the request leads to an insert: it asks for an item to be
    /// created and carries the payload.
    pub open spec fn inserts(self) -> bool {
        self matches RequestView::CreateItem { payload: Some(_) }
    }
}

impl Request {
    /// Whether the request leads to an insert.
    pub fn inserts(&self) -> (inserts: bool)
        ensures
            inserts == self@.inserts(),
    {
        match self {
            Request::CreateItem { payload: Some(_) } => true,
            _ => false,
        }
    }
}

/// The statement that `request` leads to, or the response with which it is
/// turned away. `minted` is the identifier that a new row would get.
pub open spec fn planned(request: RequestView, minted: ItemId) -> Result<
    StatementView,
    ResponseView,
> {
    match request {
        RequestView::GetItems => Ok(StatementView::SelectAll),
        RequestView::GetItemById { id } => get_item_by_id_plan(ItemId::parsed(id)),
        RequestView::CreateItem { payload } => create_item_plan(minted, payload),
        RequestView::UpdateItemById { id, payload } => update_item_by_id_plan(
            ItemId::parsed(id),
            payload,
        ),
        RequestView::DeleteItemById { id } => delete_item_by_id_plan(ItemId::parsed(id)),
    }
}

/// Whether a table that held `before` may answer `statement` so that the
/// client gets `response` and the table holds `after`.
pub open spec fn answered(
    before: Rows,
    statement: StatementView,
    response: ResponseView,
    after: Rows,
) -> bool {
    match statement {
        StatementView::SelectAll => {
            &&& after == before
            &&& exists|rows: Seq<Row>| #[trigger] lists(before, rows) && response == listed(Ok(rows))
        },
        StatementView::SelectById { id } => {
            &&& after == before
            &&& response == shown(Ok(found(before, id)))
        },
        StatementView::Insert { id, fields } => if before.contains_key(id) {
            &&& after == before
            &&& response == created(Err(ItemTable::duplicate_id()))
        } else {
            &&& after == before.insert(id, fields)
            &&& response == created(Ok(Row { id, fields }))
        },
        StatementView::Update { id, fields } => if before.contains_key(id) {
            &&& after == before.insert(id, fields)
            &&& response == shown(Ok(Some(Row { id, fields })))
        } else {
            &&& after == before
            &&& response == shown(Ok(None))
        },
        StatementView::Delete { id } => if before.contains_key(id) {
            &&& after == before.remove(id)
            &&& response == deleted(Ok(1))
        } else {
            &&& after == before
            &&& response == deleted(Ok(0))
        },
    }
}

/// Whether a table that held `before` may serve `request`, for which
/// `minted` stands ready as a new identifier, so that the client gets
/// `response` and the table holds `after`.
pub open spec fn served_with(
    before: Rows,
    request: RequestView,
    minted: ItemId,
    response: ResponseView,
    after: Rows,
) -> bool {
    match planned(request, minted) {
        Ok(statement) => answered(before, statement, response, after),
        Err(rejection) => response == rejection && after == before,
    }
}

/// Whether a table that held `before` may serve `request` so that the client
/// gets `response` and the table holds `after`. A request that inserts a row
/// does so under a random identifier.
pub open spec fn served(
    before: Rows,
    request: RequestView,
    response: ResponseView,
    after: Rows,
) -> bool {
    exists|minted: ItemId|
        (request.inserts() ==> minted.is_random()) && #[trigger] served_with(
            before,
            request,
            minted,
            response,
            after,
        )
}

/// Decides what to do with `request` when `minted` stands ready as a new
/// identifier: the statement to send, or the response that turns the request
/// away. An identifier that is no UUID and a body that is no payload are
/// turned away with 400 before any statement is built.
pub fn plan_with(request: Request, minted: ItemId) -> (plan: Result<Statement, Response>)
    ensures
        plan_view(plan) == planned(request@, minted),
{
    match request {
        Request::GetItems => Ok(get_items_statement()),
        Request::GetItemById { id } => get_item_by_id_statement(ItemId::parse(id.as_str())),
        Request::CreateItem { payload } => create_item_statement(minted, payload),
        Request::UpdateItemById { id, payload } => update_item_by_id_statement(
            ItemId::parse(id.as_str()),
            payload,
        ),
        Request::DeleteItemById { id } => delete_item_by_id_statement(ItemId::parse(id.as_str())),
    }
}

/// The identifier for the row that `request` may insert: a random one where
/// the request leads to an insert. No other request has a use for one, and
/// none is minted for it.
fn mint_for(request: &Request) -> (minted: ItemId)
    ensures
        request@.inserts() ==> minted.is_random(),
{
    if request.inserts() {
        ItemId::mint()
    } else {
        ItemId::nil()
    }
}

/// Decides what to do with `request`, minting a random identifier for the
/// row that the request may insert.
pub fn plan(request: Request) -> (plan: Result<Statement, Response>)
    ensures
        exists|minted: ItemId|
            (request@.inserts() ==> minted.is_random()) && plan_view(plan) == #[trigger] planned(
                request@,
                minted,
            ),
{
    let minted = mint_for(&request);
    plan_with(request, minted)
}

/// Runs `statement` on `table` and answers as the handler of that statement
/// does.
pub fn run(table: &mut ItemTable, statement: Statement) -> (response: Response)
    ensures
        answered(old(table)@, statement@, response@, final(table)@),
{
    match statement {
        Statement::SelectAll => {
            let items = table.list_all();
            get_items(Ok(items))
        },
        Statement::SelectById { id } => get_item_by_id(Ok(table.get_by_id(id))),
        Statement::Insert { id, fields } => create_item(table.insert(id, fields)),
        Statement::Update { id, fields } => update_item_by_id(Ok(table.replace(id, fields))),
        Statement::Delete { id } => delete_item_by_id(Ok(table.remove(id))),
    }
}

/// Serves `request` from `table` when `minted` stands ready as a new
/// identifier.
pub fn serve_with(table: &mut ItemTable, request: Request, minted: ItemId) -> (response: Response)
    ensures
        served_with(old(table)@, request@, minted, response@, final(table)@),
{
    match plan_with(request, minted) {
        Ok(statement) => run(table, statement),
        Err(rejection) => rejection,
    }
}

/// Serves `request` from `table`: checks it, runs its statement and answers.
pub fn serve(table: &mut ItemTable, request: Request) -> (response: Response)
    ensures
        served(old(table)@, request@, response@, final(table)@),
{
    let minted = mint_for(&request);
    serve_with(table, request, minted)
}

} // verus!
