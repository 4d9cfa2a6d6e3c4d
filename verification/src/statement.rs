//! The statements sent to the relational store. Each has a fixed text with
//! numbered placeholders; the values of a request travel beside the text as
//! bound parameters and never become part of it.

use crate::models::{Fields, ItemId, NewItem};
use rust_decimal::Decimal;
use vstd::prelude::*;

verus! {

/// A value bound to a placeholder.
#[derive(Debug)]
pub enum Value {
    Id(ItemId),
    Text(String),
    Decimal(Decimal),
    Integer(i32),
}

/// What a `Value` holds.
pub enum ValueView {
    Id(ItemId),
    Text(Seq<char>),
    Decimal(Decimal),
    Integer(i32),
}

impl View for Value {
    type V = ValueView;

    open spec fn view(&self) -> ValueView {
        match self {
            Value::Id(id) => ValueView::Id(*id),
            Value::Text(text) => ValueView::Text(text@),
            Value::Decimal(number) => ValueView::Decimal(*number),
            Value::Integer(number) => ValueView::Integer(*number),
        }
    }
}

/// What each of `values` holds, in the same order.
pub open spec fn values_of(values: Seq<Value>) -> Seq<ValueView> {
    values.map_values(|value: Value| value@)
}

/// One statement on the table `item`, with the values it binds.
#[derive(Debug)]
pub enum Statement {
    /// Every row.
    SelectAll,
    /// The row with this identifier, if there is one.
    SelectById { id: ItemId },
    /// A new row, which the store hands back.
    Insert { id: ItemId, fields: NewItem },
    /// New fields for the row with this identifier, which the store hands
    /// back if there is one.
    Update { id: ItemId, fields: NewItem },
    /// Removal of the row with this identifier.
    Delete { id: ItemId },
}

/// What a `Statement` holds.
pub enum StatementView {
    SelectAll,
    SelectById { id: ItemId },
    Insert { id: ItemId, fields: Fields },
    Update { id: ItemId, fields: Fields },
    Delete { id: ItemId },
}

impl View for Statement {
    type V = StatementView;

    open spec fn view(&self) -> StatementView {
        match self {
            Statement::SelectAll => StatementView::SelectAll,
            Statement::SelectById { id } => StatementView::SelectById { id: *id },
            Statement::Insert { id, fields } => StatementView::Insert { id: *id, fields: fields@ },
            Statement::Update { id, fields } => StatementView::Update { id: *id, fields: fields@ },
            Statement::Delete { id } => StatementView::Delete { id: *id },
        }
    }
}

impl StatementView {
    /// Whether the two statements are of one kind, whatever values they bind.
    pub open spec fn same_kind(self, other: StatementView) -> bool {
        match (self, other) {
            (StatementView::SelectAll, StatementView::SelectAll) => true,
            (StatementView::SelectById { .. }, StatementView::SelectById { .. }) => true,
            (StatementView::Insert { .. }, StatementView::Insert { .. }) => true,
            (StatementView::Update { .. }, StatementView::Update { .. }) => true,
            (StatementView::Delete { .. }, StatementView::Delete { .. }) => true,
            _ => false,
        }
    }

    /// The text of the statement. It depends on the kind of statement alone.
    pub open spec fn sql(self) -> Seq<char> {
        match self {
            StatementView::SelectAll => "SELECT * FROM item"@,
            StatementView::SelectById { .. } => "SELECT * FROM item WHERE id = $1"@,
            StatementView::Insert { .. } =>
                "INSERT INTO item (id, nombre, descripcion, precio, cantidad) VALUES ($1, $2, $3, $4, $5) RETURNING *"@,
            StatementView::Update { .. } =>
                "UPDATE item SET nombre=$1, descripcion=$2, precio=$3, cantidad=$4 WHERE id=$5 RETURNING *"@,
            StatementView::Delete { .. } => "DELETE FROM item WHERE id = $1"@,
        }
    }

    /// The values bound to the placeholders `$1`, `$2`, ... in this order.
    pub open spec fn parameters(self) -> Seq<ValueView> {
        match self {
            StatementView::SelectAll => seq![],
            StatementView::SelectById { id } => seq![ValueView::Id(id)],
            StatementView::Insert { id, fields } => seq![
                ValueView::Id(id),
                ValueView::Text(fields.nombre),
                ValueView::Text(fields.descripcion),
                ValueView::Decimal(fields.precio),
                ValueView::Integer(fields.cantidad),
            ],
            StatementView::Update { id, fields } => seq![
                ValueView::Text(fields.nombre),
                ValueView::Text(fields.descripcion),
                ValueView::Decimal(fields.precio),
                ValueView::Integer(fields.cantidad),
                ValueView::Id(id),
            ],
            StatementView::Delete { id } => seq![ValueView::Id(id)],
        }
    }
}

/// No value of a request ever becomes part of a statement's text: two
/// statements of one kind have the same text and as many placeholders
/// filled, whatever identifiers and fields they carry.
pub proof fn law_text_holds_no_value(first: StatementView, second: StatementView)
    requires
        first.same_kind(second),
    ensures
        first.sql() == second.sql(),
        first.parameters().len() == second.parameters().len(),
{
}

impl Statement {
    /// The text to prepare.
    pub fn sql(&self) -> (text: &'static str)
        ensures
            text@ == self@.sql(),
    {
        match self {
            Statement::SelectAll => "SELECT * FROM item",
            Statement::SelectById { .. } => "SELECT * FROM item WHERE id = $1",
            Statement::Insert { .. } =>
                "INSERT INTO item (id, nombre, descripcion, precio, cantidad) VALUES ($1, $2, $3, $4, $5) RETURNING *",
            Statement::Update { .. } =>
                "UPDATE item SET nombre=$1, descripcion=$2, precio=$3, cantidad=$4 WHERE id=$5 RETURNING *",
            Statement::Delete { .. } => "DELETE FROM item WHERE id = $1",
        }
    }

    /// The values to bind, in the order of the placeholders.
    pub fn parameters(&self) -> (values: Vec<Value>)
        ensures
            values_of(values@) == self@.parameters(),
    {
        let mut values: Vec<Value> = Vec::new();
        match self {
            Statement::SelectAll => {},
            Statement::SelectById { id } => {
                values.push(Value::Id(*id));
            },
            Statement::Insert { id, fields } => {
                values.push(Value::Id(*id));
                values.push(Value::Text(fields.nombre.clone()));
                values.push(Value::Text(fields.descripcion.clone()));
                values.push(Value::Decimal(fields.precio));
                values.push(Value::Integer(fields.cantidad));
            },
            Statement::Update { id, fields } => {
                values.push(Value::Text(fields.nombre.clone()));
                values.push(Value::Text(fields.descripcion.clone()));
                values.push(Value::Decimal(fields.precio));
                values.push(Value::Integer(fields.cantidad));
                values.push(Value::Id(*id));
            },
            Statement::Delete { id } => {
                values.push(Value::Id(*id));
            },
        }
        assert(values_of(values@) =~= self@.parameters());
        values
    }
}

} // verus!
