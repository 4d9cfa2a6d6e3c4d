//! HTTP responses as plain values: a status code and a body. Turning a body
//! into bytes on the wire is left to the caller.

use crate::models::{Item, Row};
use vstd::prelude::*;
use vstd::string::StringExecFns;

verus! {

/// Status of a request that was served.
pub const STATUS_OK: u16 = 200;

/// Status of a delete that removed a row: there is no body to send.
pub const STATUS_NO_CONTENT: u16 = 204;

/// Status of a request that was turned away before the store was asked.
pub const STATUS_BAD_REQUEST: u16 = 400;

/// Status of a request for an identifier that no row has.
pub const STATUS_NOT_FOUND: u16 = 404;

/// Status of a request on which the store failed.
pub const STATUS_INTERNAL_SERVER_ERROR: u16 = 500;

/// What a store reports when it could not carry out a statement: a
/// diagnostic message.
#[derive(Debug)]
pub struct StoreFailure {
    pub message: String,
}

impl View for StoreFailure {
    type V = Seq<char>;

    open spec fn view(&self) -> Seq<char> {
        self.message@
    }
}

/// The body of a response.
#[derive(Debug)]
pub enum Body {
    /// No body at all.
    Empty,
    /// Plain text for a human reader.
    Text(String),
    /// One item, to be sent as a JSON object.
    Item(Item),
    /// Items, to be sent as a JSON array.
    Items(Vec<Item>),
}

/// A response: the status code and the body.
#[derive(Debug)]
pub struct Response {
    pub status: u16,
    pub body: Body,
}

/// What a `Body` holds.
pub enum BodyView {
    Empty,
    Text(Seq<char>),
    Item(Row),
    Items(Seq<Row>),
}

/// What a `Response` holds.
pub struct ResponseView {
    pub status: u16,
    pub body: BodyView,
}

/// What each of `items` holds, in the same order.
pub open spec fn rows_of(items: Seq<Item>) -> Seq<Row> {
    items.map_values(|item: Item| item@)
}

impl View for Body {
    type V = BodyView;

    open spec fn view(&self) -> BodyView {
        match self {
            Body::Empty => BodyView::Empty,
            Body::Text(text) => BodyView::Text(text@),
            Body::Item(item) => BodyView::Item(item@),
            Body::Items(items) => BodyView::Items(rows_of(items@)),
        }
    }
}

impl View for Response {
    type V = ResponseView;

    open spec fn view(&self) -> ResponseView {
        ResponseView { status: self.status, body: self.body@ }
    }
}

impl ResponseView {
    /// 200 with one item.
    pub open spec fn item(row: Row) -> ResponseView {
        ResponseView { status: STATUS_OK, body: BodyView::Item(row) }
    }

    /// 200 with a list of items.
    pub open spec fn items(rows: Seq<Row>) -> ResponseView {
        ResponseView { status: STATUS_OK, body: BodyView::Items(rows) }
    }

    /// 204 without a body.
    pub open spec fn no_content() -> ResponseView {
        ResponseView { status: STATUS_NO_CONTENT, body: BodyView::Empty }
    }

    /// 404 with a short text.
    pub open spec fn not_found() -> ResponseView {
        ResponseView { status: STATUS_NOT_FOUND, body: BodyView::Text("Item no encontrado"@) }
    }

    /// 400 for a path identifier that is no UUID.
    pub open spec fn invalid_id() -> ResponseView {
        ResponseView {
            status: STATUS_BAD_REQUEST,
            body: BodyView::Text("Identificador no valido"@),
        }
    }

    /// 400 for a body that is no item payload.
    pub open spec fn invalid_payload() -> ResponseView {
        ResponseView { status: STATUS_BAD_REQUEST, body: BodyView::Text("Cuerpo no valido"@) }
    }

    /// 500 with the store's diagnostic message.
    pub open spec fn failure(message: Seq<char>) -> ResponseView {
        ResponseView {
            status: STATUS_INTERNAL_SERVER_ERROR,
            body: BodyView::Text("Error: "@ + message),
        }
    }
}

impl Response {
    /// 200 with one item.
    pub fn item(item: Item) -> (response: Response)
        ensures
            response@ == ResponseView::item(item@),
    {
        Response { status: STATUS_OK, body: Body::Item(item) }
    }

    /// 200 with a list of items, which may be empty.
    pub fn items(items: Vec<Item>) -> (response: Response)
        ensures
            response@ == ResponseView::items(rows_of(items@)),
    {
        Response { status: STATUS_OK, body: Body::Items(items) }
    }

    /// 204 without a body.
    pub fn no_content() -> (response: Response)
        ensures
            response@ == ResponseView::no_content(),
    {
        Response { status: STATUS_NO_CONTENT, body: Body::Empty }
    }

    /// 404 with a short text.
    pub fn not_found() -> (response: Response)
        ensures
            response@ == ResponseView::not_found(),
    {
        Response {
            status: STATUS_NOT_FOUND,
            body: Body::Text(String::from_str("Item no encontrado")),
        }
    }

    /// 400 for a path identifier that is no UUID.
    pub fn invalid_id() -> (response: Response)
        ensures
            response@ == ResponseView::invalid_id(),
    {
        Response {
            status: STATUS_BAD_REQUEST,
            body: Body::Text(String::from_str("Identificador no valido")),
        }
    }

    /// 400 for a body that is no item payload.
    pub fn invalid_payload() -> (response: Response)
        ensures
            response@ == ResponseView::invalid_payload(),
    {
        Response {
            status: STATUS_BAD_REQUEST,
            body: Body::Text(String::from_str("Cuerpo no valido")),
        }
    }

    /// 500 with the store's diagnostic message behind the word `Error`.
    pub fn failure(failure: &StoreFailure) -> (response: Response)
        ensures
            response@ == ResponseView::failure(failure@),
    {
        let text = String::from_str("Error: ").concat(failure.message.as_str());
        Response { status: STATUS_INTERNAL_SERVER_ERROR, body: Body::Text(text) }
    }
}

} // verus!
