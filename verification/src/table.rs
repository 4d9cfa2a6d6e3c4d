//! The table `item` as the service expects it to behave: rows keyed by their
//! identifier, at most one row for each. `ItemTable` keeps such a table in
//! memory; its five operations are the ones that the statements ask of a
//! relational store.

use crate::models::{Fields, Item, ItemId, NewItem, Row};
use crate::response::{rows_of, StoreFailure};
use vstd::prelude::*;
use vstd::string::StringExecFns;

verus! {

/// What a table holds: the fields of each row, by the row's identifier.
pub type Rows = Map<ItemId, Fields>;

/// The row that `table` has for `id`, if it has one.
pub open spec fn found(table: Rows, id: ItemId) -> Option<Row> {
    if table.contains_key(id) {
        Some(Row { id, fields: table[id] })
    } else {
        None
    }
}

/// Whether `rows` lists `table`: every row of the table once, in any order,
/// and nothing else.
pub open spec fn lists(table: Rows, rows: Seq<Row>) -> bool {
    &&& forall|i: int|
        0 <= i < rows.len() ==> table.contains_key(#[trigger] rows[i].id) && table[rows[i].id]
            == rows[i].fields
    &&& forall|i: int, j: int|
        0 <= i < j < rows.len() ==> (#[trigger] rows[i]).id != (#[trigger] rows[j]).id
    &&& forall|id: ItemId| #[trigger]
        table.contains_key(id) ==> exists|i: int| 0 <= i < rows.len() && rows[i].id == id
}

/// Whether no two of `items` share an identifier.
spec fn distinct(items: Seq<Item>) -> bool {
    forall|i: int, j: int|
        0 <= i < j < items.len() ==> (#[trigger] items[i]).id != (#[trigger] items[j]).id
}

/// Whether one of `items` has the identifier `id`.
spec fn holds(items: Seq<Item>, id: ItemId) -> bool {
    exists|i: int| 0 <= i < items.len() && (#[trigger] items[i]).id == id
}

/// The place of an item with the identifier `id` among `items`.
spec fn place(items: Seq<Item>, id: ItemId) -> int {
    choose|i: int| 0 <= i < items.len() && (#[trigger] items[i]).id == id
}

/// The table that `items` make up.
spec fn content(items: Seq<Item>) -> Rows {
    Map::new(|id: ItemId| holds(items, id), |id: ItemId| items[place(items, id)]@.fields)
}

/// Among items with distinct identifiers, the place of an identifier is the
/// index of the one item that has it.
proof fn lemma_place(items: Seq<Item>, i: int)
    requires
        distinct(items),
        0 <= i < items.len(),
    ensures
        holds(items, items[i].id),
        place(items, items[i].id) == i,
        content(items).contains_key(items[i].id),
        content(items)[items[i].id] == items[i]@.fields,
{
    let id = items[i].id;
    assert(holds(items, id));
    let p = place(items, id);
    assert(0 <= p < items.len() && items[p].id == id);
    if p < i {
        assert(items[p].id != items[i].id);
    } else if i < p {
        assert(items[i].id != items[p].id);
    }
}

/// A row appended under an identifier that the table lacks is a row inserted.
proof fn lemma_push(items: Seq<Item>, item: Item)
    requires
        distinct(items),
        !holds(items, item.id),
    ensures
        distinct(items.push(item)),
        content(items.push(item)) == content(items).insert(item.id, item@.fields),
{
    let grown = items.push(item);
    assert forall|i: int, j: int| 0 <= i < j < grown.len() implies (#[trigger] grown[i]).id != (
    #[trigger] grown[j]).id by {
        if j == items.len() {
            assert(items[i].id != item.id);
        } else {
            assert(items[i].id != items[j].id);
        }
    }
    assert forall|id: ItemId| holds(grown, id) <==> (id == item.id || holds(items, id)) by {
        if holds(grown, id) {
            let p = place(grown, id);
            if p < items.len() {
                assert(items[p].id == id);
            }
        }
        if id == item.id {
            assert(grown[items.len() as int].id == id);
        }
        if holds(items, id) {
            let p = place(items, id);
            assert(grown[p].id == id);
        }
    }
    assert forall|id: ItemId| holds(grown, id) implies content(grown)[id] == content(
        items,
    ).insert(item.id, item@.fields)[id] by {
        let p = place(grown, id);
        lemma_place(grown, p);
        if p < items.len() {
            assert(grown[p] == items[p]);
            lemma_place(items, p);
        }
    }
    assert(content(grown) =~= content(items).insert(item.id, item@.fields));
}

/// A row overwritten in place, under the same identifier, is a row replaced.
proof fn lemma_update(items: Seq<Item>, at: int, item: Item)
    requires
        distinct(items),
        0 <= at < items.len(),
        items[at].id == item.id,
    ensures
        distinct(items.update(at, item)),
        content(items.update(at, item)) == content(items).insert(item.id, item@.fields),
{
    let changed = items.update(at, item);
    assert forall|i: int, j: int| 0 <= i < j < changed.len() implies (#[trigger] changed[i]).id
        != (#[trigger] changed[j]).id by {
        assert(items[i].id != items[j].id);
    }
    assert forall|id: ItemId| holds(changed, id) <==> holds(items, id) by {
        if holds(changed, id) {
            let p = place(changed, id);
            assert(items[p].id == id);
        }
        if holds(items, id) {
            let p = place(items, id);
            assert(changed[p].id == id);
        }
    }
    lemma_place(items, at);
    assert forall|id: ItemId| holds(changed, id) implies content(changed)[id] == content(
        items,
    ).insert(item.id, item@.fields)[id] by {
        let p = place(changed, id);
        lemma_place(changed, p);
        if p != at {
            assert(changed[p] == items[p]);
            lemma_place(items, p);
        }
    }
    assert(content(changed) =~= content(items).insert(item.id, item@.fields));
}

/// A row taken out is a row removed, and the others stay.
proof fn lemma_remove(items: Seq<Item>, at: int)
    requires
        distinct(items),
        0 <= at < items.len(),
    ensures
        distinct(items.remove(at)),
        content(items.remove(at)) == content(items).remove(items[at].id),
{
    let gone = items[at].id;
    let rest = items.remove(at);
    assert forall|i: int| 0 <= i < rest.len() implies #[trigger] rest[i] == items[if i < at {
        i
    } else {
        i + 1
    }] by {}
    assert forall|i: int, j: int| 0 <= i < j < rest.len() implies (#[trigger] rest[i]).id != (
    #[trigger] rest[j]).id by {
        let oi = if i < at { i } else { i + 1 };
        let oj = if j < at { j } else { j + 1 };
        assert(items[oi].id != items[oj].id);
    }
    assert forall|id: ItemId| holds(rest, id) <==> (id != gone && holds(items, id)) by {
        if holds(rest, id) {
            let p = place(rest, id);
            let op = if p < at { p } else { p + 1 };
            assert(items[op].id == id);
            if id == gone {
                if op < at {
                    assert(items[op].id != items[at].id);
                } else {
                    assert(items[at].id != items[op].id);
                }
            }
        }
        if id != gone && holds(items, id) {
            let p = place(items, id);
            let np = if p < at { p } else { p - 1 };
            assert(rest[np] == items[p]);
            assert(rest[np].id == id);
        }
    }
    assert forall|id: ItemId| holds(rest, id) implies content(rest)[id] == content(items).remove(
        gone,
    )[id] by {
        let p = place(rest, id);
        lemma_place(rest, p);
        let op = if p < at { p } else { p + 1 };
        assert(rest[p] == items[op]);
        lemma_place(items, op);
    }
    assert(content(rest) =~= content(items).remove(gone));
}

/// Items with distinct identifiers list the table that they make up.
proof fn lemma_lists(items: Seq<Item>)
    requires
        distinct(items),
    ensures
        lists(content(items), rows_of(items)),
{
    let rows = rows_of(items);
    let table = content(items);
    assert forall|i: int| 0 <= i < rows.len() implies table.contains_key(#[trigger] rows[i].id)
        && table[rows[i].id] == rows[i].fields by {
        lemma_place(items, i);
    }
    assert forall|i: int, j: int| 0 <= i < j < rows.len() implies (#[trigger] rows[i]).id != (
    #[trigger] rows[j]).id by {
        assert(items[i].id != items[j].id);
    }
    assert forall|id: ItemId| #[trigger] table.contains_key(id) implies exists|i: int|
        0 <= i < rows.len() && rows[i].id == id by {
        let p = place(items, id);
        assert(rows[p].id == id);
    }
}

/// A table `item` kept in memory.
pub struct ItemTable {
    rows: Vec<Item>,
}

impl View for ItemTable {
    type V = Rows;

    closed spec fn view(&self) -> Rows {
        content(self.rows@)
    }
}

impl ItemTable {
    /// No two rows share an identifier.
    #[verifier::type_invariant]
    spec fn unique_ids(self) -> bool {
        distinct(self.rows@)
    }

    /// The message with which `insert` turns a second row for one identifier
    /// away.
    pub open spec fn duplicate_id() -> Seq<char> {
        "duplicate key value violates unique constraint"@
    }

    /// An empty table.
    pub fn new() -> (table: ItemTable)
        ensures
            table@ == Rows::empty(),
    {
        let table = ItemTable { rows: Vec::new() };
        assert(table@ =~= Rows::empty());
        table
    }

    /// The index of the row with the identifier `id`, if there is one.
    fn find(&self, id: ItemId) -> (at: Option<usize>)
        ensures
            match at {
                Some(at) => at < self.rows@.len() && self.rows@[at as int].id == id,
                None => !holds(self.rows@, id),
            },
    {
        let mut at: usize = 0;
        while at < self.rows.len()
            invariant
                at <= self.rows@.len(),
                forall|i: int| 0 <= i < at ==> (#[trigger] self.rows@[i]).id != id,
            decreases self.rows@.len() - at,
        {
            if self.rows[at].id == id {
                return Some(at);
            }
            at = at + 1;
        }
        None
    }

    /// Moves the rows out and leaves the table empty, so that a row can be
    /// added, changed or taken out before the rows are put back.
    fn take_rows(&mut self) -> (rows: Vec<Item>)
        ensures
            rows == old(self).rows,
            final(self).rows@.len() == 0,
    {
        let mut rows: Vec<Item> = Vec::new();
        core::mem::swap(&mut self.rows, &mut rows);
        rows
    }

    /// Every row, in the order in which the rows were inserted.
    pub fn list_all(&self) -> (items: Vec<Item>)
        ensures
            lists(self@, rows_of(items@)),
    {
        let mut items: Vec<Item> = Vec::new();
        let mut at: usize = 0;
        while at < self.rows.len()
            invariant
                at <= self.rows@.len(),
                items@.len() == at,
                forall|i: int| 0 <= i < at ==> (#[trigger] items@[i])@ == self.rows@[i]@,
            decreases self.rows@.len() - at,
        {
            items.push(self.rows[at].clone());
            at = at + 1;
        }
        proof {
            use_type_invariant(self);
            lemma_lists(self.rows@);
            assert(rows_of(items@) =~= rows_of(self.rows@));
        }
        items
    }

    /// The row with the identifier `id`, if there is one.
    pub fn get_by_id(&self, id: ItemId) -> (item: Option<Item>)
        ensures
            match item {
                Some(item) => found(self@, id) == Some(item@),
                None => found(self@, id).is_none(),
            },
    {
        proof {
            use_type_invariant(self);
        }
        match self.find(id) {
            Some(at) => {
                proof {
                    lemma_place(self.rows@, at as int);
                }
                Some(self.rows[at].clone())
            },
            None => None,
        }
    }

    /// Inserts a row with the identifier `id` and hands it back. Where the
    /// table has a row for `id` already, nothing changes and the insert fails.
    pub fn insert(&mut self, id: ItemId, fields: NewItem) -> (inserted: Result<Item, StoreFailure>)
        ensures
            match inserted {
                Ok(item) => {
                    &&& !old(self)@.contains_key(id)
                    &&& item@ == (Row { id, fields: fields@ })
                    &&& final(self)@ == old(self)@.insert(id, fields@)
                },
                Err(failure) => {
                    &&& old(self)@.contains_key(id)
                    &&& failure@ == ItemTable::duplicate_id()
                    &&& final(self)@ == old(self)@
                },
            },
    {
        proof {
            use_type_invariant(&*self);
        }
        match self.find(id) {
            Some(at) => {
                proof {
                    lemma_place(self.rows@, at as int);
                }
                Err(
                    StoreFailure {
                        message: String::from_str("duplicate key value violates unique constraint"),
                    },
                )
            },
            None => {
                let copy = fields.clone();
                let item = fields.with_id(id);
                let row = copy.with_id(id);
                let mut rows = self.take_rows();
                proof {
                    lemma_push(rows@, row);
                }
                rows.push(row);
                self.rows = rows;
                Ok(item)
            },
        }
    }

    /// Replaces all four fields of the row with the identifier `id` and hands
    /// the row back. Where the table has no such row, nothing changes.
    pub fn replace(&mut self, id: ItemId, fields: NewItem) -> (replaced: Option<Item>)
        ensures
            match replaced {
                Some(item) => {
                    &&& old(self)@.contains_key(id)
                    &&& item@ == (Row { id, fields: fields@ })
                    &&& final(self)@ == old(self)@.insert(id, fields@)
                },
                None => {
                    &&& !old(self)@.contains_key(id)
                    &&& final(self)@ == old(self)@
                },
            },
    {
        proof {
            use_type_invariant(&*self);
        }
        match self.find(id) {
            Some(at) => {
                let copy = fields.clone();
                let item = fields.with_id(id);
                let row = copy.with_id(id);
                let mut rows = self.take_rows();
                proof {
                    lemma_place(rows@, at as int);
                    lemma_update(rows@, at as int, row);
                }
                rows.set(at, row);
                self.rows = rows;
                Some(item)
            },
            None => None,
        }
    }

    /// Removes the row with the identifier `id` and says how many rows went:
    /// one, or none where the table has no such row.
    pub fn remove(&mut self, id: ItemId) -> (affected: u64)
        ensures
            old(self)@.contains_key(id) ==> affected == 1 && final(self)@ == old(self)@.remove(id),
            !old(self)@.contains_key(id) ==> affected == 0 && final(self)@ == old(self)@,
    {
        proof {
            use_type_invariant(&*self);
        }
        match self.find(id) {
            Some(at) => {
                let mut rows = self.take_rows();
                proof {
                    lemma_place(rows@, at as int);
                    lemma_remove(rows@, at as int);
                }
                rows.remove(at);
                self.rows = rows;
                1
            },
            None => 0,
        }
    }
}

} // verus!
