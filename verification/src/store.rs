//! The store: one table keyed by the message identifier, and the three
//! mutations that an envelope can ask of it.

use vstd::prelude::*;
use std::collections::HashMap;
use crate::envelope::{Action, CustomMessage, Envelope, KafkaMessage, Payload};

verus! {

/// One statement against the table, with its arguments.
#[derive(Debug)]
pub enum Mutation {
    /// Insert the row unless a row with this identifier is there.
    Insert { message_id: i32, name: String, message: String },
    /// Set both columns of the row with this identifier, if there is one.
    Update { message_id: i32, name: String, message: String },
    /// Remove the row with this identifier, if there is one.
    Delete { message_id: i32 },
}

/// The mathematical value of a mutation.
pub enum Change {
    Insert { key: int, row: Payload },
    Update { key: int, row: Payload },
    Delete { key: int },
}

impl View for Mutation {
    type V = Change;

    open spec fn view(&self) -> Change {
        match *self {
            Mutation::Insert { message_id, name, message } => Change::Insert {
                key: message_id as int,
                row: Payload { name: name@, message: message@ },
            },
            Mutation::Update { message_id, name, message } => Change::Update {
                key: message_id as int,
                row: Payload { name: name@, message: message@ },
            },
            Mutation::Delete { message_id } => Change::Delete { key: message_id as int },
        }
    }
}

/// The mutation that a valid envelope asks for. The payload of a `Delete` is
/// passed over.
pub open spec fn change_of(e: Envelope) -> Change {
    match e.action {
        Action::Create => Change::Insert { key: e.message_id, row: e.payload->Some_0 },
        Action::Update => Change::Update { key: e.message_id, row: e.payload->Some_0 },
        Action::Delete => Change::Delete { key: e.message_id },
    }
}

/// The table after a mutation.
pub open spec fn applied(table: Map<int, Payload>, change: Change) -> Map<int, Payload> {
    match change {
        Change::Insert { key, row } => if table.contains_key(key) {
            table
        } else {
            table.insert(key, row)
        },
        Change::Update { key, row } => if table.contains_key(key) {
            table.insert(key, row)
        } else {
            table
        },
        Change::Delete { key } => table.remove(key),
    }
}

/// Picks the mutation for an envelope, by its action.
pub fn plan(msg: &KafkaMessage) -> (r: Mutation)
    ensures
        r@ == change_of(msg@),
{
    let message_id: i32 = *msg.message_id();
    match msg.action() {
        Action::Create => {
            let d = msg.data();
            Mutation::Insert {
                message_id,
                name: d.name().to_owned(),
                message: d.message().to_owned(),
            }
        },
        Action::Update => {
            let d = msg.data();
            Mutation::Update {
                message_id,
                name: d.name().to_owned(),
                message: d.message().to_owned(),
            }
        },
        Action::Delete => Mutation::Delete { message_id },
    }
}

/// A table held in memory, which does to its rows what the statements do to
/// the rows of the database.
pub struct Table {
    rows: HashMap<i32, CustomMessage>,
}

impl View for Table {
    type V = Map<int, Payload>;

    closed spec fn view(&self) -> Map<int, Payload> {
        Map::new(
            |k: int| i32::MIN <= k <= i32::MAX && self.rows@.contains_key(k as i32),
            |k: int| self.rows@[k as i32]@,
        )
    }
}

impl Table {
    /// A table without rows.
    pub fn new() -> (r: Table)
        ensures
            r@ == Map::<int, Payload>::empty(),
    {
        let r = Table { rows: HashMap::new() };
        assert(r@ =~= Map::<int, Payload>::empty());
        r
    }

    /// The row with this identifier, if there is one.
    pub fn row(&self, message_id: i32) -> (r: Option<&CustomMessage>)
        ensures
            match r {
                Some(x) => self@.contains_key(message_id as int) && self@[message_id as int]
                    == x@,
                None => !self@.contains_key(message_id as int),
            },
    {
        broadcast use vstd::std_specs::hash::group_hash_axioms;

        self.rows.get(&message_id)
    }

    /// Applies one mutation.
    pub fn apply(&mut self, mutation: &Mutation)
        ensures
            final(self)@ == applied(old(self)@, mutation@),
    {
        broadcast use vstd::std_specs::hash::group_hash_axioms;

        match mutation {
            Mutation::Insert { message_id, name, message } => {
                if !self.rows.contains_key(message_id) {
                    self.rows.insert(*message_id, CustomMessage::new(name.clone(), message.clone()));
                }
            },
            Mutation::Update { message_id, name, message } => {
                if self.rows.contains_key(message_id) {
                    self.rows.insert(*message_id, CustomMessage::new(name.clone(), message.clone()));
                }
            },
            Mutation::Delete { message_id } => {
                self.rows.remove(message_id);
            },
        }
        assert(self@ =~= applied(old(self)@, mutation@));
    }
}

/// Creating a row under a fresh identifier puts exactly that row there and
/// leaves every other row as it was; creating it once more changes nothing.
pub proof fn lemma_create_is_idempotent(table: Map<int, Payload>, key: int, row: Payload)
    requires
        !table.contains_key(key),
    ensures
        ({
            let once = applied(table, Change::Insert { key, row });
            &&& once.contains_key(key)
            &&& once[key] == row
            &&& once.remove(key) == table
            &&& applied(once, Change::Insert { key, row }) == once
        }),
{
    let once = applied(table, Change::Insert { key, row });
    assert(once.remove(key) =~= table);
}

/// Creating a row where one is stored under the identifier keeps the stored
/// row.
pub proof fn lemma_create_keeps_stored_row(table: Map<int, Payload>, key: int, row: Payload)
    requires
        table.contains_key(key),
    ensures
        applied(table, Change::Insert { key, row }) == table,
{
}

/// An update of a row that is not there leaves the table as it was.
pub proof fn lemma_update_of_missing_row(table: Map<int, Payload>, key: int, row: Payload)
    requires
        !table.contains_key(key),
    ensures
        applied(table, Change::Update { key, row }) == table,
{
}

/// A delete of a row that is not there leaves the table as it was.
pub proof fn lemma_delete_of_missing_row(table: Map<int, Payload>, key: int)
    requires
        !table.contains_key(key),
    ensures
        applied(table, Change::Delete { key }) == table,
{
    assert(table.remove(key) =~= table);
}

} // verus!
