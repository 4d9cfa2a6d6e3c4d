//! Item identifiers: minting a new one and reading one from text.

use crate::models::ItemId;
use vstd::prelude::*;

verus! {

/// The 128-bit value that `uuid::Uuid::parse_str` reads from `text`, or `None`
/// where it rejects the text.
pub uninterp spec fn uuid_text_value(text: Seq<char>) -> Option<u128>;

/// Calls `uuid::Uuid::parse_str` and hands out the UUID as its 128-bit value
/// (`Uuid::as_u128`). Not proved: that the same text always gives the same
/// result. The contract claims no more; which texts are UUIDs, and of what
/// value, stays with the `uuid` crate.
#[verifier::external_body]
fn parse_uuid(text: &str) -> (value: Option<u128>)
    ensures
        value == uuid_text_value(text@),
{
    match uuid::Uuid::parse_str(text) {
        Ok(parsed) => Some(parsed.as_u128()),
        Err(_) => None,
    }
}

/// Calls `uuid::Uuid::new_v4` and hands out the UUID as its 128-bit value
/// (`Uuid::as_u128`). Not proved: that the version field holds 4 and the
/// variant field the bits `10`, which `new_v4` sets on whatever the random
/// source returned. Nothing else is claimed of the value, which differs from
/// call to call.
#[verifier::external_body]
fn random_uuid() -> (value: u128)
    ensures
        is_random_uuid(value),
{
    uuid::Uuid::new_v4().as_u128()
}

/// Whether `value` is laid out as a random (version 4) UUID: the version
/// field holds 4 and the variant field starts with the bits `10`.
pub open spec fn is_random_uuid(value: u128) -> bool {
    value & 0x0000_0000_0000_f000_c000_0000_0000_0000
        == 0x0000_0000_0000_4000_8000_0000_0000_0000
}

impl ItemId {
    /// The identifier that stands behind an optional 128-bit value.
    pub open spec fn from_value(value: Option<u128>) -> Option<ItemId> {
        match value {
            Some(value) => Some(ItemId { value }),
            None => None,
        }
    }

    /// The identifier written in `text`, if `text` is a UUID.
    pub open spec fn parsed(text: Seq<char>) -> Option<ItemId> {
        ItemId::from_value(uuid_text_value(text))
    }

    /// Whether the identifier is laid out as a random UUID.
    pub open spec fn is_random(self) -> bool {
        is_random_uuid(self.value)
    }

    /// The nil identifier: all bits zero.
    pub fn nil() -> (id: ItemId)
        ensures
            id.value == 0,
    {
        ItemId { value: 0 }
    }

    /// Reads an identifier from `text`: a UUID in simple, hyphenated, braced
    /// or URN form. `None` where `text` is none of these.
    pub fn parse(text: &str) -> (id: Option<ItemId>)
        ensures
            id == ItemId::parsed(text@),
    {
        match parse_uuid(text) {
            Some(value) => Some(ItemId { value }),
            None => None,
        }
    }

    /// Mints a new random identifier.
    pub fn mint() -> (id: ItemId)
        ensures
            id.is_random(),
    {
        ItemId { value: random_uuid() }
    }
}

} // verus!
