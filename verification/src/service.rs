//! The five operations from end to end, against a [`Table`].
//!
//! Each function here sends its endpoint's one statement to the table and
//! hands the outcome to the endpoint's handler: what a client sees of the
//! service while the store behaves as its schema promises.

use vstd::prelude::*;
use crate::database::{
    Table, deleted, distinct_ids, find_row, has_id, inserted, matching, updated,
};
use crate::models::{DID, Record, is_minted};
use crate::response::{Reply, Response};
use crate::routes::{
    DIDRequest, create_did, create_reply, delete_did, delete_reply, get_did, get_dids, get_reply,
    list_reply, update_did, update_reply,
};

verus! {

/// Create, for a record already minted: the rows afterwards and the reply.
pub open spec fn create_step(rows: Seq<Record>, did: Record) -> (Seq<Record>, Reply) {
    (inserted(rows, did), create_reply(did, !has_id(rows, did.id)))
}

/// List: the reply.
pub open spec fn list_step(rows: Seq<Record>) -> Reply {
    list_reply(Some(rows))
}

/// Get by id: the reply.
pub open spec fn get_step(rows: Seq<Record>, id: Seq<char>) -> Reply {
    get_reply(Some(find_row(rows, id)))
}

/// Update: the rows afterwards and the reply.
pub open spec fn update_step(rows: Seq<Record>, id: Seq<char>, public_key: Seq<char>) -> (
    Seq<Record>,
    Reply,
) {
    (updated(rows, id, public_key), update_reply(Some(matching(rows, id))))
}

/// Delete: the rows afterwards and the reply.
pub open spec fn delete_step(rows: Seq<Record>, id: Seq<char>) -> (Seq<Record>, Reply) {
    (deleted(rows, id), delete_reply(Some(matching(rows, id))))
}

/// Create with the record given: inserts `did` and answers as
/// `POST /create_did` does.
pub fn create_with(table: &mut Table, did: DID) -> (response: Response)
    ensures
        distinct_ids(final(table)@),
        (final(table)@, response@) == create_step(old(table)@, did@),
{
    let outcome = table.insert(did.clone());
    create_did(did, outcome)
}

/// Create: mints a record for the payload's key, inserts it and answers as
/// `POST /create_did` does. Which identifier and which time the record gets
/// is not known beforehand; whatever they are, rows and reply are those of
/// [`create_step`].
pub fn create(table: &mut Table, payload: &DIDRequest) -> (response: Response)
    ensures
        distinct_ids(final(table)@),
        exists|did: Record| #[trigger]
            is_minted(did, payload.public_key@) && (final(table)@, response@) == create_step(
                old(table)@,
                did,
            ),
{
    let did = DID::new(payload.public_key.as_str());
    proof {
        assert(is_minted(did@, payload.public_key@));
    }
    create_with(table, did)
}

/// List: answers as `GET /get_dids` does.
pub fn list(table: &Table) -> (response: Response)
    ensures
        distinct_ids(table@),
        response@ == list_step(table@),
{
    get_dids(Ok(table.select_all()))
}

/// Get by id: answers as `GET /get_did/:id` does.
pub fn get(table: &Table, id: &str) -> (response: Response)
    ensures
        distinct_ids(table@),
        response@ == get_step(table@, id@),
{
    get_did(Ok(table.select_by_id(id)))
}

/// Update: gives the record a new key and answers as
/// `POST /update_did/:id` does.
pub fn update(table: &mut Table, id: &str, payload: &DIDRequest) -> (response: Response)
    ensures
        distinct_ids(final(table)@),
        (final(table)@, response@) == update_step(old(table)@, id@, payload.public_key@),
{
    update_did(Ok(table.update_public_key(id, payload.public_key.as_str())))
}

/// Delete: removes the record and answers as `POST /delete_did/:id` does.
pub fn delete(table: &mut Table, id: &str) -> (response: Response)
    ensures
        distinct_ids(final(table)@),
        (final(table)@, response@) == delete_step(old(table)@, id@),
{
    delete_did(Ok(table.delete_by_id(id)))
}

} // verus!
