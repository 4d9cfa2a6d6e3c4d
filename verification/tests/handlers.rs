use item_service::handlers::{
    create_item, create_item_statement, delete_item_by_id, delete_item_by_id_statement,
    get_item_by_id, get_item_by_id_statement, get_items, get_items_statement, update_item_by_id,
    update_item_by_id_statement,
};
use item_service::models::{Item, ItemId, NewItem};
use item_service::response::{Body, Response, StoreFailure};
use item_service::statement::Statement;
use rust_decimal::Decimal;

fn widget() -> NewItem {
    NewItem {
        nombre: String::from("Widget"),
        descripcion: String::from("A widget"),
        precio: Decimal::new(1999, 2),
        cantidad: 5,
    }
}

fn stored(value: u128) -> Item {
    widget().with_id(ItemId { value })
}

fn timeout() -> StoreFailure {
    StoreFailure { message: String::from("PoolTimedOut") }
}

fn text_of(response: &Response) -> &str {
    match &response.body {
        Body::Text(text) => text,
        other => panic!("no text in {:?}", other),
    }
}

fn item_of(response: &Response) -> &Item {
    match &response.body {
        Body::Item(item) => item,
        other => panic!("no item in {:?}", other),
    }
}

#[test]
fn get_items_answers_200_with_the_rows() {
    let response = get_items(Ok(vec![stored(1), stored(2)]));
    assert_eq!(response.status, 200);
    match response.body {
        Body::Items(items) => {
            assert_eq!(items.len(), 2);
            assert_eq!(items[0].id, ItemId { value: 1 });
            assert_eq!(items[1].id, ItemId { value: 2 });
            assert_eq!(items[1].nombre, "Widget");
        }
        other => panic!("no items in {:?}", other),
    }
}

#[test]
fn get_items_answers_200_without_rows() {
    let response = get_items(Ok(Vec::new()));
    assert_eq!(response.status, 200);
    assert!(matches!(response.body, Body::Items(ref items) if items.is_empty()));
}

#[test]
fn get_items_answers_500_on_a_failure() {
    let response = get_items(Err(timeout()));
    assert_eq!(response.status, 500);
    assert_eq!(text_of(&response), "Error: PoolTimedOut");
}

#[test]
fn get_items_statement_selects_all() {
    assert!(matches!(get_items_statement(), Statement::SelectAll));
}

#[test]
fn get_item_by_id_answers_200_with_the_row() {
    let response = get_item_by_id(Ok(Some(stored(3))));
    assert_eq!(response.status, 200);
    let item = item_of(&response);
    assert_eq!(item.id, ItemId { value: 3 });
    assert_eq!(item.nombre, "Widget");
    assert_eq!(item.descripcion, "A widget");
    assert_eq!(item.precio, Decimal::new(1999, 2));
    assert_eq!(item.cantidad, 5);
}

#[test]
fn get_item_by_id_answers_404_without_a_row() {
    let response = get_item_by_id(Ok(None));
    assert_eq!(response.status, 404);
    assert_eq!(text_of(&response), "Item no encontrado");
}

#[test]
fn get_item_by_id_answers_500_on_a_failure() {
    let response = get_item_by_id(Err(timeout()));
    assert_eq!(response.status, 500);
    assert_eq!(text_of(&response), "Error: PoolTimedOut");
}

#[test]
fn get_item_by_id_statement_selects_the_row() {
    let id = ItemId { value: 4 };
    match get_item_by_id_statement(Some(id)) {
        Ok(Statement::SelectById { id: bound }) => assert_eq!(bound, id),
        other => panic!("unexpected {:?}", other),
    }
}

#[test]
fn get_item_by_id_statement_turns_a_missing_identifier_away() {
    match get_item_by_id_statement(None) {
        Err(response) => {
            assert_eq!(response.status, 400);
            assert_eq!(text_of(&response), "Identificador no valido");
        }
        other => panic!("unexpected {:?}", other),
    }
}

#[test]
fn create_item_answers_200_with_the_new_row() {
    let response = create_item(Ok(stored(5)));
    assert_eq!(response.status, 200);
    assert_eq!(item_of(&response).id, ItemId { value: 5 });
    assert_eq!(item_of(&response).precio.to_string(), "19.99");
}

#[test]
fn create_item_answers_500_on_a_failure() {
    let response = create_item(Err(StoreFailure { message: String::from("unique violation") }));
    assert_eq!(response.status, 500);
    assert_eq!(text_of(&response), "Error: unique violation");
}

#[test]
fn create_item_statement_inserts_the_payload() {
    let id = ItemId { value: 6 };
    match create_item_statement(id, Some(widget())) {
        Ok(Statement::Insert { id: bound, fields }) => {
            assert_eq!(bound, id);
            assert_eq!(fields.nombre, "Widget");
            assert_eq!(fields.descripcion, "A widget");
            assert_eq!(fields.precio, Decimal::new(1999, 2));
            assert_eq!(fields.cantidad, 5);
        }
        other => panic!("unexpected {:?}", other),
    }
}

#[test]
fn create_item_statement_turns_a_missing_payload_away() {
    match create_item_statement(ItemId { value: 6 }, None) {
        Err(response) => {
            assert_eq!(response.status, 400);
            assert_eq!(text_of(&response), "Cuerpo no valido");
        }
        other => panic!("unexpected {:?}", other),
    }
}

#[test]
fn update_item_by_id_answers_200_with_the_row() {
    let response = update_item_by_id(Ok(Some(stored(7))));
    assert_eq!(response.status, 200);
    assert_eq!(item_of(&response).id, ItemId { value: 7 });
}

#[test]
fn update_item_by_id_answers_404_without_a_row() {
    let response = update_item_by_id(Ok(None));
    assert_eq!(response.status, 404);
    assert_eq!(text_of(&response), "Item no encontrado");
}

#[test]
fn update_item_by_id_answers_500_on_a_failure() {
    let response = update_item_by_id(Err(timeout()));
    assert_eq!(response.status, 500);
    assert_eq!(text_of(&response), "Error: PoolTimedOut");
}

#[test]
fn update_item_by_id_statement_replaces_the_fields() {
    let id = ItemId { value: 8 };
    match update_item_by_id_statement(Some(id), Some(widget())) {
        Ok(Statement::Update { id: bound, fields }) => {
            assert_eq!(bound, id);
            assert_eq!(fields.nombre, "Widget");
            assert_eq!(fields.cantidad, 5);
        }
        other => panic!("unexpected {:?}", other),
    }
}

#[test]
fn update_item_by_id_statement_checks_the_identifier_first() {
    match update_item_by_id_statement(None, None) {
        Err(response) => {
            assert_eq!(response.status, 400);
            assert_eq!(text_of(&response), "Identificador no valido");
        }
        other => panic!("unexpected {:?}", other),
    }
    match update_item_by_id_statement(None, Some(widget())) {
        Err(response) => assert_eq!(text_of(&response), "Identificador no valido"),
        other => panic!("unexpected {:?}", other),
    }
}

#[test]
fn update_item_by_id_statement_turns_a_missing_payload_away() {
    match update_item_by_id_statement(Some(ItemId { value: 8 }), None) {
        Err(response) => {
            assert_eq!(response.status, 400);
            assert_eq!(text_of(&response), "Cuerpo no valido");
        }
        other => panic!("unexpected {:?}", other),
    }
}

#[test]
fn delete_item_by_id_answers_204_where_a_row_went() {
    let response = delete_item_by_id(Ok(1));
    assert_eq!(response.status, 204);
    assert!(matches!(response.body, Body::Empty));
}

#[test]
fn delete_item_by_id_answers_204_where_many_rows_went() {
    let response = delete_item_by_id(Ok(u64::MAX));
    assert_eq!(response.status, 204);
    assert!(matches!(response.body, Body::Empty));
}

#[test]
fn delete_item_by_id_answers_404_where_no_row_went() {
    let response = delete_item_by_id(Ok(0));
    assert_eq!(response.status, 404);
    assert_eq!(text_of(&response), "Item no encontrado");
}

#[test]
fn delete_item_by_id_answers_500_on_a_failure() {
    let response = delete_item_by_id(Err(timeout()));
    assert_eq!(response.status, 500);
    assert_eq!(text_of(&response), "Error: PoolTimedOut");
}

#[test]
fn delete_item_by_id_statement_deletes_the_row() {
    let id = ItemId { value: 9 };
    match delete_item_by_id_statement(Some(id)) {
        Ok(Statement::Delete { id: bound }) => assert_eq!(bound, id),
        other => panic!("unexpected {:?}", other),
    }
}

#[test]
fn delete_item_by_id_statement_turns_a_missing_identifier_away() {
    match delete_item_by_id_statement(None) {
        Err(response) => {
            assert_eq!(response.status, 400);
            assert_eq!(text_of(&response), "Identificador no valido");
        }
        other => panic!("unexpected {:?}", other),
    }
}

#[test]
fn failure_with_an_empty_message() {
    let response = get_items(Err(StoreFailure { message: String::new() }));
    assert_eq!(response.status, 500);
    assert_eq!(text_of(&response), "Error: ");
}
