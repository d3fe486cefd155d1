//! The store, as the service sees it.
//!
//! The service keeps its records in one table of a relational store and
//! sends it one statement per request. This module holds the text of those
//! statements, and a [`Table`] that lives in memory and does with each of
//! them what the schema promises: `id` is the primary key, so no two rows
//! ever share one.

use vstd::prelude::*;
use crate::models::{DID, Record, Timestamp};
use crate::response::records_of;
use crate::routes::StoreError;

verus! {

/// The variable from which the process reads where the store is.
pub const DATABASE_URL: &'static str = "DATABASE_URL";

/// How many connections the pool may hold open at once.
pub const MAX_CONNECTIONS: u32 = 5;

/// Create: binds `id`, `public_key`, `created_at`.
pub const INSERT_DID: &'static str =
    "INSERT INTO dids (id, public_key, created_at) VALUES ($1, $2, $3)";

/// List: binds nothing.
pub const SELECT_DIDS: &'static str = "SELECT id, public_key, created_at FROM dids";

/// Get by id: binds `id`.
pub const SELECT_DID: &'static str = "SELECT id, public_key, created_at FROM dids WHERE id = $1";

/// Update: binds `public_key`, then `id`.
pub const UPDATE_PUBLIC_KEY: &'static str = "UPDATE dids SET public_key = $1 WHERE id = $2";

/// Delete: binds `id`.
pub const DELETE_DID: &'static str = "DELETE FROM dids WHERE id = $1";

/// A value bound to a placeholder of a statement.
#[derive(Debug, PartialEq, Eq)]
pub enum Bind {
    Text(String),
    Time(Option<Timestamp>),
}

/// What a [`Bind`] is, mathematically.
pub enum BindValue {
    Text(Seq<char>),
    Time(Option<Timestamp>),
}

impl View for Bind {
    type V = BindValue;

    open spec fn view(&self) -> BindValue {
        match *self {
            Bind::Text(text) => BindValue::Text(text@),
            Bind::Time(time) => BindValue::Time(time),
        }
    }
}

/// The one statement that an endpoint sends to the store.
#[derive(Debug, PartialEq, Eq)]
pub enum Statement {
    /// Create.
    InsertDid(DID),
    /// List.
    SelectDids,
    /// Get by id.
    SelectDid(String),
    /// Update.
    UpdatePublicKey { id: String, public_key: String },
    /// Delete.
    DeleteDid(String),
}

impl Statement {
    /// The text of the statement.
    pub open spec fn sql_text(&self) -> Seq<char> {
        match *self {
            Statement::InsertDid(_) => INSERT_DID@,
            Statement::SelectDids => SELECT_DIDS@,
            Statement::SelectDid(_) => SELECT_DID@,
            Statement::UpdatePublicKey { .. } => UPDATE_PUBLIC_KEY@,
            Statement::DeleteDid(_) => DELETE_DID@,
        }
    }

    /// The values for `$1`, `$2`, .. in that order.
    pub open spec fn bind_values(&self) -> Seq<BindValue> {
        match *self {
            Statement::InsertDid(did) => seq![
                BindValue::Text(did.id@),
                BindValue::Text(did.public_key@),
                BindValue::Time(did.created_at),
            ],
            Statement::SelectDids => seq![],
            Statement::SelectDid(id) => seq![BindValue::Text(id@)],
            Statement::UpdatePublicKey { id, public_key } => seq![
                BindValue::Text(public_key@),
                BindValue::Text(id@),
            ],
            Statement::DeleteDid(id) => seq![BindValue::Text(id@)],
        }
    }

    /// The text to send.
    pub fn sql(&self) -> (text: &'static str)
        ensures
            text@ == self.sql_text(),
    {
        match self {
            Statement::InsertDid(_) => INSERT_DID,
            Statement::SelectDids => SELECT_DIDS,
            Statement::SelectDid(_) => SELECT_DID,
            Statement::UpdatePublicKey { .. } => UPDATE_PUBLIC_KEY,
            Statement::DeleteDid(_) => DELETE_DID,
        }
    }

    /// The values to bind, first placeholder first.
    pub fn binds(&self) -> (values: Vec<Bind>)
        ensures
            values@.map_values(|bind: Bind| bind@) == self.bind_values(),
    {
        let mut values: Vec<Bind> = Vec::new();
        match self {
            Statement::InsertDid(did) => {
                values.push(Bind::Text(did.id.clone()));
                values.push(Bind::Text(did.public_key.clone()));
                values.push(Bind::Time(did.created_at));
            },
            Statement::SelectDids => {},
            Statement::SelectDid(id) => {
                values.push(Bind::Text(id.clone()));
            },
            Statement::UpdatePublicKey { id, public_key } => {
                values.push(Bind::Text(public_key.clone()));
                values.push(Bind::Text(id.clone()));
            },
            Statement::DeleteDid(id) => {
                values.push(Bind::Text(id.clone()));
            },
        }
        assert(values@.map_values(|bind: Bind| bind@) =~= self.bind_values());
        values
    }
}

/// The detail of the error that an insert under a taken `id` gives.
pub const DUPLICATE_KEY: &'static str = "duplicate key value violates unique constraint";

/// Some row has this `id`.
pub open spec fn has_id(rows: Seq<Record>, id: Seq<char>) -> bool {
    exists|i: int| 0 <= i < rows.len() && (#[trigger] rows[i]).id == id
}

/// No two rows share an `id`: what the primary key enforces.
pub open spec fn distinct_ids(rows: Seq<Record>) -> bool {
    forall|i: int, j: int|
        0 <= i < j < rows.len() ==> (#[trigger] rows[i]).id != (#[trigger] rows[j]).id
}

/// Where the row with this `id` stands, if there is one.
pub open spec fn position_of(rows: Seq<Record>, id: Seq<char>) -> int {
    choose|i: int| 0 <= i < rows.len() && (#[trigger] rows[i]).id == id
}

/// The row with this `id`, if there is one.
pub open spec fn find_row(rows: Seq<Record>, id: Seq<char>) -> Option<Record> {
    if has_id(rows, id) {
        Some(rows[position_of(rows, id)])
    } else {
        None
    }
}

/// How many rows a statement with `WHERE id = ..` touches in a table whose
/// ids are distinct.
pub open spec fn matching(rows: Seq<Record>, id: Seq<char>) -> u64 {
    if has_id(rows, id) {
        1
    } else {
        0
    }
}

/// The rows after an insert of `row`: the new row comes last, unless its
/// `id` is taken, in which case nothing changes.
pub open spec fn inserted(rows: Seq<Record>, row: Record) -> Seq<Record> {
    if has_id(rows, row.id) {
        rows
    } else {
        rows.push(row)
    }
}

/// One row after `SET public_key = ..  WHERE id = ..`.
pub open spec fn rekeyed(row: Record, id: Seq<char>, public_key: Seq<char>) -> Record {
    if row.id == id {
        Record { id: row.id, public_key, created_at: row.created_at }
    } else {
        row
    }
}

/// The rows after an update: every row with this `id` has the new key and is
/// otherwise as before; all other rows are untouched.
pub open spec fn updated(rows: Seq<Record>, id: Seq<char>, public_key: Seq<char>) -> Seq<Record> {
    rows.map_values(|row: Record| rekeyed(row, id, public_key))
}

/// The rows after a delete, in a table whose ids are distinct: the row with
/// this `id` is gone, the others keep their order.
pub open spec fn deleted(rows: Seq<Record>, id: Seq<char>) -> Seq<Record> {
    if has_id(rows, id) {
        rows.remove(position_of(rows, id))
    } else {
        rows
    }
}

/// The table `dids`, in memory. Rows stand in the order in which they were
/// inserted, and no two of them ever share an `id`.
pub struct Table {
    rows: Vec<DID>,
}

impl View for Table {
    type V = Seq<Record>;

    closed spec fn view(&self) -> Seq<Record> {
        records_of(self.rows@)
    }
}

impl Table {
    #[verifier::type_invariant]
    spec fn primary_key_holds(self) -> bool {
        distinct_ids(self@)
    }

    /// An empty table.
    pub fn new() -> (table: Table)
        ensures
            table@ == Seq::<Record>::empty(),
    {
        let table = Table { rows: Vec::new() };
        assert(table@ =~= Seq::<Record>::empty());
        table
    }

    /// How many rows the table holds. No two of them share an `id`.
    pub fn len(&self) -> (n: usize)
        ensures
            n == self@.len(),
            distinct_ids(self@),
    {
        proof {
            use_type_invariant(self);
        }
        self.rows.len()
    }

    fn position(&self, id: &String) -> (at: Option<usize>)
        ensures
            self@ == records_of(self.rows@),
            distinct_ids(self@),
            match at {
                Some(i) => has_id(self@, id@) && i == position_of(self@, id@),
                None => !has_id(self@, id@),
            },
    {
        proof {
            use_type_invariant(self);
        }
        let mut i: usize = 0;
        while i < self.rows.len()
            invariant
                i <= self.rows.len(),
                distinct_ids(self@),
                self@ == records_of(self.rows@),
                forall|j: int| 0 <= j < i ==> (#[trigger] self@[j]).id != id@,
            decreases self.rows.len() - i,
        {
            if self.rows[i].id == *id {
                assert(self@[i as int].id == id@);
                return Some(i);
            }
            i += 1;
        }
        None
    }

    /// `INSERT`: adds the row and reports one row affected, or fails and
    /// leaves the table alone if the `id` is taken.
    pub fn insert(&mut self, did: DID) -> (outcome: Result<u64, StoreError>)
        ensures
            final(self)@ == inserted(old(self)@, did@),
            distinct_ids(final(self)@),
            match outcome {
                Ok(n) => n == 1 && !has_id(old(self)@, did@.id),
                Err(e) => e.detail@ == DUPLICATE_KEY@ && has_id(old(self)@, did@.id),
            },
    {
        match self.position(&did.id) {
            Some(_) => Err(StoreError { detail: DUPLICATE_KEY.to_owned() }),
            None => {
                let mut rows: Vec<DID> = Vec::new();
                std::mem::swap(&mut rows, &mut self.rows);
                rows.push(did);
                assert(records_of(rows@) =~= old(self)@.push(did@));
                self.rows = rows;
                Ok(1)
            },
        }
    }

    /// `SELECT` without a `WHERE`: every row, in the table's order.
    pub fn select_all(&self) -> (rows: Vec<DID>)
        ensures
            records_of(rows@) == self@,
            distinct_ids(self@),
    {
        proof {
            use_type_invariant(self);
        }
        let mut rows: Vec<DID> = Vec::new();
        let mut i: usize = 0;
        while i < self.rows.len()
            invariant
                i <= self.rows.len(),
                rows@.len() == i,
                forall|j: int| 0 <= j < i ==> (#[trigger] rows@[j])@ == self.rows@[j]@,
            decreases self.rows.len() - i,
        {
            rows.push(self.rows[i].clone());
            i += 1;
        }
        assert(records_of(rows@) =~= self@);
        rows
    }

    /// `SELECT .. WHERE id = ..`: the row with this `id`, if there is one.
    pub fn select_by_id(&self, id: &str) -> (row: Option<DID>)
        ensures
            distinct_ids(self@),
            match row {
                Some(did) => find_row(self@, id@) == Some(did@),
                None => find_row(self@, id@) is None,
            },
    {
        let key = id.to_owned();
        match self.position(&key) {
            Some(i) => Some(self.rows[i].clone()),
            None => None,
        }
    }

    /// `UPDATE .. SET public_key = .. WHERE id = ..`: gives the row with
    /// this `id` the new key and reports how many rows that was.
    pub fn update_public_key(&mut self, id: &str, public_key: &str) -> (affected: u64)
        ensures
            final(self)@ == updated(old(self)@, id@, public_key@),
            distinct_ids(final(self)@),
            affected == matching(old(self)@, id@),
    {
        let key = id.to_owned();
        match self.position(&key) {
            Some(i) => {
                let row = DID {
                    id: self.rows[i].id.clone(),
                    public_key: public_key.to_owned(),
                    created_at: self.rows[i].created_at,
                };
                let mut rows: Vec<DID> = Vec::new();
                std::mem::swap(&mut rows, &mut self.rows);
                rows.set(i, row);
                assert(records_of(rows@) =~= updated(old(self)@, id@, public_key@));
                self.rows = rows;
                1
            },
            None => {
                assert(self@ =~= updated(self@, id@, public_key@));
                0
            },
        }
    }

    /// `DELETE .. WHERE id = ..`: removes the row with this `id` and reports
    /// how many rows that was.
    pub fn delete_by_id(&mut self, id: &str) -> (affected: u64)
        ensures
            final(self)@ == deleted(old(self)@, id@),
            distinct_ids(final(self)@),
            affected == matching(old(self)@, id@),
    {
        let key = id.to_owned();
        match self.position(&key) {
            Some(i) => {
                let mut rows: Vec<DID> = Vec::new();
                std::mem::swap(&mut rows, &mut self.rows);
                rows.remove(i);
                assert(records_of(rows@) =~= old(self)@.remove(i as int));
                self.rows = rows;
                1
            },
            None => 0,
        }
    }
}

} // verus!
