//! What holds of the service as a whole, for every table, identifier and
//! payload. Each law speaks of requests served one after another from a
//! table that answers as `ItemTable` does.

use crate::ident::uuid_text_value;
use crate::models::{Fields, ItemId, Row};
use crate::response::{
    BodyView, ResponseView, STATUS_INTERNAL_SERVER_ERROR, STATUS_NOT_FOUND, STATUS_NO_CONTENT,
    STATUS_OK,
};
use crate::service::{served, served_with, RequestView};
use crate::table::{found, lists, Rows};
use vstd::prelude::*;

verus! {

/// Creating an item under an identifier that no row has answers 200 with an
/// item that holds the payload's four fields and that identifier, and adds
/// exactly that row. Under an identifier that a row has already, nothing is
/// added and the answer is 500.
pub proof fn law_create_returns_payload_under_fresh_id(
    before: Rows,
    payload: Fields,
    minted: ItemId,
    response: ResponseView,
    after: Rows,
)
    requires
        served_with(
            before,
            RequestView::CreateItem { payload: Some(payload) },
            minted,
            response,
            after,
        ),
    ensures
        !before.contains_key(minted) ==> {
            &&& response == ResponseView::item(Row { id: minted, fields: payload })
            &&& after == before.insert(minted, payload)
        },
        before.contains_key(minted) ==> {
            &&& response.status == STATUS_INTERNAL_SERVER_ERROR
            &&& after == before
        },
{
}

/// Whatever identifier was minted for it, a creation that answers 200
/// returns an item with the payload's four fields under a random identifier
/// that no row had, and adds exactly that row; one that does not answers 500
/// and adds nothing.
pub proof fn law_created_item_is_new(
    before: Rows,
    payload: Fields,
    response: ResponseView,
    after: Rows,
)
    requires
        served(before, RequestView::CreateItem { payload: Some(payload) }, response, after),
    ensures
        response.status == STATUS_OK ==> exists|id: ItemId|
            {
                &&& id.is_random()
                &&& !#[trigger] before.contains_key(id)
                &&& response == ResponseView::item(Row { id, fields: payload })
                &&& after == before.insert(id, payload)
            },
        response.status != STATUS_OK ==> {
            &&& response.status == STATUS_INTERNAL_SERVER_ERROR
            &&& after == before
        },
{
}

/// Two items created one after the other never share an identifier, and the
/// second creation leaves the first item as it was.
pub proof fn law_created_items_differ(
    before: Rows,
    first_payload: Fields,
    first: Row,
    between: Rows,
    second_payload: Fields,
    second: Row,
    after: Rows,
)
    requires
        served(
            before,
            RequestView::CreateItem { payload: Some(first_payload) },
            ResponseView::item(first),
            between,
        ),
        served(
            between,
            RequestView::CreateItem { payload: Some(second_payload) },
            ResponseView::item(second),
            after,
        ),
    ensures
        first.id != second.id,
        found(after, first.id) == Some(first),
        found(after, second.id) == Some(second),
{
}

/// Getting, updating or deleting under an identifier that no row has answers
/// 404, never 500, and leaves the table as it was.
pub proof fn law_absent_id_is_not_found(
    before: Rows,
    path: Seq<char>,
    id: ItemId,
    payload: Fields,
    response: ResponseView,
    after: Rows,
)
    requires
        ItemId::parsed(path) == Some(id),
        !before.contains_key(id),
        served(before, RequestView::GetItemById { id: path }, response, after) || served(
            before,
            RequestView::UpdateItemById { id: path, payload: Some(payload) },
            response,
            after,
        ) || served(before, RequestView::DeleteItemById { id: path }, response, after),
    ensures
        response == ResponseView::not_found(),
        response.status == STATUS_NOT_FOUND,
        after == before,
{
}

/// Deleting under an identifier that a row has answers 204 and removes that
/// row and no other; getting the same identifier afterwards answers 404.
pub proof fn law_delete_removes_exactly_that_row(
    before: Rows,
    path: Seq<char>,
    id: ItemId,
    deletion: ResponseView,
    between: Rows,
    lookup: ResponseView,
    after: Rows,
)
    requires
        ItemId::parsed(path) == Some(id),
        before.contains_key(id),
        served(before, RequestView::DeleteItemById { id: path }, deletion, between),
        served(between, RequestView::GetItemById { id: path }, lookup, after),
    ensures
        deletion == ResponseView::no_content(),
        deletion.status == STATUS_NO_CONTENT,
        between == before.remove(id),
        !between.contains_key(id),
        forall|other: ItemId|
            other != id ==> between.contains_key(other) == before.contains_key(other) && (
            before.contains_key(other) ==> between[other] == before[other]),
        lookup == ResponseView::not_found(),
        after == between,
{
}

/// Deleting is idempotent on the table: after one delete the identifier has
/// no row, whether it had one or not, and a second delete changes nothing
/// and answers 404.
pub proof fn law_delete_is_idempotent(
    before: Rows,
    path: Seq<char>,
    id: ItemId,
    first: ResponseView,
    between: Rows,
    second: ResponseView,
    after: Rows,
)
    requires
        ItemId::parsed(path) == Some(id),
        served(before, RequestView::DeleteItemById { id: path }, first, between),
        served(between, RequestView::DeleteItemById { id: path }, second, after),
    ensures
        !between.contains_key(id),
        second == ResponseView::not_found(),
        after == between,
{
}

/// Getting an item right after it was created, under the identifier that
/// the creation returned, answers 200 with the same item: every field as it
/// was sent, the price the very same decimal.
pub proof fn law_create_then_get_round_trips(
    before: Rows,
    payload: Fields,
    created: Row,
    between: Rows,
    path: Seq<char>,
    lookup: ResponseView,
    after: Rows,
)
    requires
        served(
            before,
            RequestView::CreateItem { payload: Some(payload) },
            ResponseView::item(created),
            between,
        ),
        ItemId::parsed(path) == Some(created.id),
        served(between, RequestView::GetItemById { id: path }, lookup, after),
    ensures
        created.fields == payload,
        lookup == ResponseView::item(created),
        lookup.body == BodyView::Item(Row { id: created.id, fields: payload }),
        after == between,
{
}

/// Updating an item replaces all four fields at once: the update answers 200
/// with the payload's fields, and getting the item afterwards shows every
/// field of the payload and none of what the row held before.
pub proof fn law_update_replaces_every_field(
    before: Rows,
    path: Seq<char>,
    id: ItemId,
    payload: Fields,
    update: ResponseView,
    between: Rows,
    lookup: ResponseView,
    after: Rows,
)
    requires
        ItemId::parsed(path) == Some(id),
        before.contains_key(id),
        served(
            before,
            RequestView::UpdateItemById { id: path, payload: Some(payload) },
            update,
            between,
        ),
        served(between, RequestView::GetItemById { id: path }, lookup, after),
    ensures
        update == ResponseView::item(Row { id, fields: payload }),
        between == before.insert(id, payload),
        lookup == ResponseView::item(Row { id, fields: payload }),
        found(after, id) == Some(Row { id, fields: payload }),
{
}

/// Listing an empty table answers 200 with an empty list, never 404 or 500.
pub proof fn law_empty_table_lists_nothing(response: ResponseView, after: Rows)
    requires
        served(Rows::empty(), RequestView::GetItems, response, after),
    ensures
        response == ResponseView::items(Seq::empty()),
        response.status == STATUS_OK,
        after == Rows::empty(),
{
    let rows = choose|rows: Seq<Row>| #[trigger]
        lists(Rows::empty(), rows) && response == ResponseView::items(rows);
    if rows.len() > 0 {
        assert(Rows::empty().contains_key(rows[0].id));
    }
    assert(rows =~= Seq::empty());
}

/// A request whose path is no UUID is answered 400, which is neither 404 nor
/// 500, and the table is not touched.
pub proof fn law_malformed_id_is_rejected(
    before: Rows,
    path: Seq<char>,
    payload: Option<Fields>,
    response: ResponseView,
    after: Rows,
)
    requires
        uuid_text_value(path).is_none(),
        served(before, RequestView::GetItemById { id: path }, response, after) || served(
            before,
            RequestView::UpdateItemById { id: path, payload },
            response,
            after,
        ) || served(before, RequestView::DeleteItemById { id: path }, response, after),
    ensures
        response == ResponseView::invalid_id(),
        after == before,
{
}

/// A request to create or update an item whose body is no payload is
/// answered 400, and the table is not touched.
pub proof fn law_malformed_payload_is_rejected(
    before: Rows,
    path: Seq<char>,
    response: ResponseView,
    after: Rows,
)
    requires
        served(before, RequestView::CreateItem { payload: None }, response, after) || (
        uuid_text_value(path).is_some() && served(
            before,
            RequestView::UpdateItemById { id: path, payload: None },
            response,
            after,
        )),
    ensures
        response == ResponseView::invalid_payload(),
        after == before,
{
}

} // verus!
