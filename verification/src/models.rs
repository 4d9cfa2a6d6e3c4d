//! The resource model: an inventory item and the payload that creates or
//! replaces one.

use rust_decimal::Decimal;
use vstd::prelude::*;

verus! {

/// `rust_decimal::Decimal`, an exact fixed-point number. The library never
/// looks inside a price: it carries the value from a payload to the store and
/// from a row to a response, so the type is left opaque.
#[verifier::external_type_specification]
#[verifier::external_body]
pub struct ExDecimal(Decimal);

/// The identifier of an item: the 128 bits of a UUID, most significant byte
/// first.
#[derive(Clone, Copy, Debug, PartialEq, Eq, Structural)]
pub struct ItemId {
    pub value: u128,
}

/// The four mutable fields of an item, as sent by a client to create an item
/// or to replace one as a whole.
#[derive(Debug)]
pub struct NewItem {
    pub nombre: String,
    pub descripcion: String,
    pub precio: Decimal,
    pub cantidad: i32,
}

/// A persisted item: the identifier minted at creation and the four fields.
#[derive(Debug)]
pub struct Item {
    pub id: ItemId,
    pub nombre: String,
    pub descripcion: String,
    pub precio: Decimal,
    pub cantidad: i32,
}

/// What a `NewItem` holds, with texts as sequences of characters.
pub struct Fields {
    pub nombre: Seq<char>,
    pub descripcion: Seq<char>,
    pub precio: Decimal,
    pub cantidad: i32,
}

/// What an `Item` holds: its identifier and its fields.
pub struct Row {
    pub id: ItemId,
    pub fields: Fields,
}

impl View for NewItem {
    type V = Fields;

    open spec fn view(&self) -> Fields {
        Fields {
            nombre: self.nombre@,
            descripcion: self.descripcion@,
            precio: self.precio,
            cantidad: self.cantidad,
        }
    }
}

impl View for Item {
    type V = Row;

    open spec fn view(&self) -> Row {
        Row {
            id: self.id,
            fields: Fields {
                nombre: self.nombre@,
                descripcion: self.descripcion@,
                precio: self.precio,
                cantidad: self.cantidad,
            },
        }
    }
}

impl Clone for NewItem {
    fn clone(&self) -> (copy: NewItem)
        ensures
            copy == *self,
    {
        NewItem {
            nombre: self.nombre.clone(),
            descripcion: self.descripcion.clone(),
            precio: self.precio,
            cantidad: self.cantidad,
        }
    }
}

impl Clone for Item {
    fn clone(&self) -> (copy: Item)
        ensures
            copy == *self,
    {
        Item {
            id: self.id,
            nombre: self.nombre.clone(),
            descripcion: self.descripcion.clone(),
            precio: self.precio,
            cantidad: self.cantidad,
        }
    }
}

impl NewItem {
    /// The item that holds these fields under the identifier `id`.
    pub fn with_id(self, id: ItemId) -> (item: Item)
        ensures
            item@ == (Row { id, fields: self@ }),
    {
        Item {
            id,
            nombre: self.nombre,
            descripcion: self.descripcion,
            precio: self.precio,
            cantidad: self.cantidad,
        }
    }
}

} // verus!
