//! What holds of the record lifecycle, proved over the table's rows.
//!
//! Each law speaks of the rows of a table whose ids are distinct, as every
//! [`crate::database::Table`] has them, and of the steps that
//! [`crate::service`] takes on them.

use vstd::prelude::*;
use crate::database::{deleted, distinct_ids, find_row, has_id, position_of, updated};
use crate::models::{DID_PREFIX, Record, is_minted};
use crate::response::{CREATED, Content, NOT_FOUND, OK, Reply, text_reply};
use crate::routes::{DELETED_TEXT, NOT_FOUND_TEXT, UPDATED_TEXT};
use crate::service::{create_step, delete_step, get_step, list_step, update_step};

verus! {

/// One request that changes the table.
pub enum Change {
    Create(Record),
    Update(Seq<char>, Seq<char>),
    Delete(Seq<char>),
}

/// The rows after one change.
pub open spec fn apply(rows: Seq<Record>, change: Change) -> Seq<Record> {
    match change {
        Change::Create(did) => create_step(rows, did).0,
        Change::Update(id, public_key) => update_step(rows, id, public_key).0,
        Change::Delete(id) => delete_step(rows, id).0,
    }
}

/// By how much one change moves the number of records, going by its reply
/// alone: up by one for a create answered 201, down by one for a delete
/// answered 200, not at all otherwise.
pub open spec fn net(rows: Seq<Record>, change: Change) -> int {
    match change {
        Change::Create(did) => if create_step(rows, did).1.status == CREATED {
            1
        } else {
            0
        },
        Change::Update(_, _) => 0,
        Change::Delete(id) => if delete_step(rows, id).1.status == OK {
            -1
        } else {
            0
        },
    }
}

/// The rows after a run of changes, first to last.
pub open spec fn apply_all(rows: Seq<Record>, changes: Seq<Change>) -> Seq<Record>
    decreases changes.len(),
{
    if changes.len() == 0 {
        rows
    } else {
        apply(apply_all(rows, changes.drop_last()), changes.last())
    }
}

/// The sum of [`net`] over a run of changes.
pub open spec fn net_all(rows: Seq<Record>, changes: Seq<Change>) -> int
    decreases changes.len(),
{
    if changes.len() == 0 {
        0
    } else {
        net_all(rows, changes.drop_last()) + net(
            apply_all(rows, changes.drop_last()),
            changes.last(),
        )
    }
}

/// Every create in the run was answered 201.
pub open spec fn all_created(rows: Seq<Record>, dids: Seq<Record>) -> bool {
    forall|k: int|
        0 <= k < dids.len() ==> (#[trigger] create_step(
            apply_all(rows, creates(dids.take(k))),
            dids[k],
        )).1.status == CREATED
}

/// A run of creates, one for each record.
pub open spec fn creates(dids: Seq<Record>) -> Seq<Change> {
    dids.map_values(|did: Record| Change::Create(did))
}

/// No step breaks the primary key.
pub proof fn law_changes_keep_ids_distinct(rows: Seq<Record>, change: Change)
    requires
        distinct_ids(rows),
    ensures
        distinct_ids(apply(rows, change)),
{
}

/// A create mints an identifier under the fixed prefix, and when it answers
/// 201 the body carries exactly that identifier.
pub proof fn law_create_returns_prefixed_id(
    rows: Seq<Record>,
    did: Record,
    public_key: Seq<char>,
)
    requires
        is_minted(did, public_key),
    ensures
        DID_PREFIX@.is_prefix_of(did.id),
        create_step(rows, did).1.status == CREATED ==> create_step(rows, did).1.content
            == Content::Created(did.id),
        create_step(rows, did).1.status == CREATED <==> !has_id(rows, did.id),
{
}

/// A create that answers 201 hands out an identifier that no record had
/// before it.
pub proof fn law_created_id_is_new(rows: Seq<Record>, did: Record)
    requires
        distinct_ids(rows),
        create_step(rows, did).1.status == CREATED,
    ensures
        !has_id(rows, did.id),
        create_step(rows, did).0 == rows.push(did),
        distinct_ids(create_step(rows, did).0),
{
}

/// Any number of creates in a row that all answer 201 add their records in
/// order, and no two of the identifiers they hand out are the same.
pub proof fn law_sequential_creates_are_distinct(rows: Seq<Record>, dids: Seq<Record>)
    requires
        distinct_ids(rows),
        all_created(rows, dids),
    ensures
        apply_all(rows, creates(dids)) == rows + dids,
        distinct_ids(rows + dids),
        forall|i: int, j: int|
            0 <= i < j < dids.len() ==> (#[trigger] dids[i]).id != (#[trigger] dids[j]).id,
    decreases dids.len(),
{
    if dids.len() == 0 {
        assert(rows + dids =~= rows);
        assert(creates(dids) =~= Seq::<Change>::empty());
    } else {
        let front = dids.drop_last();
        let k = dids.len() - 1;
        assert forall|m: int| 0 <= m < front.len() implies (#[trigger] create_step(
            apply_all(rows, creates(front.take(m))),
            front[m],
        )).1.status == CREATED by {
            assert(front.take(m) =~= dids.take(m));
            assert(front[m] == dids[m]);
        }
        law_sequential_creates_are_distinct(rows, front);
        assert(dids.take(k) =~= front);
        assert(creates(dids).drop_last() =~= creates(front));
        assert(creates(dids).last() == Change::Create(dids.last()));
        assert(create_step(apply_all(rows, creates(dids.take(k))), dids[k]).1.status == CREATED);
        assert((rows + front).push(dids.last()) =~= rows + dids);
        let all = rows + dids;
        assert forall|i: int, j: int| 0 <= i < j < dids.len() implies (#[trigger] dids[i]).id
            != (#[trigger] dids[j]).id by {
            assert(all[rows.len() + i] == dids[i]);
            assert(all[rows.len() + j] == dids[j]);
        }
    }
}

/// Get by id right after a create that answered 201 answers 200 with the
/// record as it was created, field for field.
pub proof fn law_get_after_create(rows: Seq<Record>, did: Record)
    requires
        distinct_ids(rows),
        create_step(rows, did).1.status == CREATED,
    ensures
        get_step(create_step(rows, did).0, did.id) == (Reply {
            status: OK,
            content: Content::Record(did),
        }),
{
    let after = create_step(rows, did).0;
    assert(after[rows.len() as int] == did);
}

/// An update of a record that exists answers 200, changes its public key
/// and nothing else about it, and get by id then shows the record with the
/// new key.
pub proof fn law_update_changes_key_only(
    rows: Seq<Record>,
    id: Seq<char>,
    public_key: Seq<char>,
)
    requires
        distinct_ids(rows),
        has_id(rows, id),
    ensures
        update_step(rows, id, public_key).1 == text_reply(OK, UPDATED_TEXT@),
        find_row(update_step(rows, id, public_key).0, id) == Some(
            Record {
                id,
                public_key,
                created_at: find_row(rows, id).unwrap().created_at,
            },
        ),
        get_step(update_step(rows, id, public_key).0, id) == (Reply {
            status: OK,
            content: Content::Record(
                Record { id, public_key, created_at: find_row(rows, id).unwrap().created_at },
            ),
        }),
{
    let after = updated(rows, id, public_key);
    let at = position_of(rows, id);
    assert(after[at].id == id);
    lemma_update_keeps_ids(rows, id, public_key);
}

/// An update leaves every other record as it was, and the number of records
/// too.
pub proof fn law_update_leaves_others(
    rows: Seq<Record>,
    id: Seq<char>,
    public_key: Seq<char>,
    other: Seq<char>,
)
    requires
        distinct_ids(rows),
        other != id,
    ensures
        update_step(rows, id, public_key).0.len() == rows.len(),
        find_row(update_step(rows, id, public_key).0, other) == find_row(rows, other),
{
    let after = updated(rows, id, public_key);
    lemma_update_keeps_ids(rows, id, public_key);
    if has_id(rows, other) {
        let at = position_of(rows, other);
        assert(after[at].id == other);
    } else if has_id(after, other) {
        let at = position_of(after, other);
        assert(rows[at].id == other);
    }
}

/// An update of a record that does not exist answers 404 and changes
/// nothing.
pub proof fn law_update_absent(rows: Seq<Record>, id: Seq<char>, public_key: Seq<char>)
    requires
        !has_id(rows, id),
    ensures
        update_step(rows, id, public_key) == (rows, text_reply(NOT_FOUND, NOT_FOUND_TEXT@)),
{
    assert(updated(rows, id, public_key) =~= rows);
}

/// Get by id after a delete of the same identifier answers 404.
pub proof fn law_get_after_delete(rows: Seq<Record>, id: Seq<char>)
    requires
        distinct_ids(rows),
    ensures
        get_step(delete_step(rows, id).0, id) == text_reply(NOT_FOUND, NOT_FOUND_TEXT@),
{
    lemma_delete_removes(rows, id);
}

/// A delete of a record that exists answers 200, and one of a record that
/// does not exist answers 404, never 500, and changes nothing.
pub proof fn law_delete_reply(rows: Seq<Record>, id: Seq<char>)
    ensures
        has_id(rows, id) ==> delete_step(rows, id).1 == text_reply(OK, DELETED_TEXT@),
        !has_id(rows, id) ==> delete_step(rows, id) == (
            rows,
            text_reply(NOT_FOUND, NOT_FOUND_TEXT@),
        ),
{
}

/// List answers 200 with every record of the table, each once.
pub proof fn law_list_returns_every_record(rows: Seq<Record>)
    ensures
        list_step(rows) == (Reply { status: OK, content: Content::Records(rows) }),
{
}

/// After a create that answered 201, list holds the new record and every
/// record it held before, and nothing else.
pub proof fn law_list_after_create(rows: Seq<Record>, did: Record)
    requires
        distinct_ids(rows),
        create_step(rows, did).1.status == CREATED,
    ensures
        list_step(create_step(rows, did).0) == (Reply {
            status: OK,
            content: Content::Records(rows.push(did)),
        }),
{
}

/// After a delete, list holds no record with that identifier and every
/// other record it held before, and nothing else.
pub proof fn law_list_after_delete(rows: Seq<Record>, id: Seq<char>)
    requires
        distinct_ids(rows),
    ensures
        list_step(delete_step(rows, id).0).content == Content::Records(deleted(rows, id)),
        !has_id(deleted(rows, id), id),
        forall|row: Record|
            deleted(rows, id).contains(row) <==> rows.contains(row) && row.id != id,
{
    lemma_delete_removes(rows, id);
}

/// After any run of creates, updates and deletes, the number of records is
/// the number before, plus the creates answered 201, minus the deletes
/// answered 200.
pub proof fn law_count_follows_replies(rows: Seq<Record>, changes: Seq<Change>)
    requires
        distinct_ids(rows),
    ensures
        distinct_ids(apply_all(rows, changes)),
        apply_all(rows, changes).len() == rows.len() + net_all(rows, changes),
    decreases changes.len(),
{
    if changes.len() > 0 {
        law_count_follows_replies(rows, changes.drop_last());
        let before = apply_all(rows, changes.drop_last());
        law_changes_keep_ids_distinct(before, changes.last());
    }
}

proof fn lemma_update_keeps_ids(rows: Seq<Record>, id: Seq<char>, public_key: Seq<char>)
    ensures
        updated(rows, id, public_key).len() == rows.len(),
        forall|i: int|
            0 <= i < rows.len() ==> (#[trigger] updated(rows, id, public_key)[i]).id == rows[i].id,
        distinct_ids(rows) ==> distinct_ids(updated(rows, id, public_key)),
        forall|other: Seq<char>|
            has_id(updated(rows, id, public_key), other) <==> has_id(rows, other),
{
    let after = updated(rows, id, public_key);
    assert forall|other: Seq<char>| has_id(after, other) <==> has_id(rows, other) by {
        if has_id(after, other) {
            let i = choose|i: int| 0 <= i < after.len() && (#[trigger] after[i]).id == other;
            assert(rows[i].id == other);
        }
        if has_id(rows, other) {
            let i = choose|i: int| 0 <= i < rows.len() && (#[trigger] rows[i]).id == other;
            assert(after[i].id == other);
        }
    }
}

proof fn lemma_delete_removes(rows: Seq<Record>, id: Seq<char>)
    requires
        distinct_ids(rows),
    ensures
        !has_id(deleted(rows, id), id),
        distinct_ids(deleted(rows, id)),
        forall|row: Record|
            deleted(rows, id).contains(row) <==> rows.contains(row) && row.id != id,
{
    let after = deleted(rows, id);
    if has_id(rows, id) {
        let at = position_of(rows, id);
        assert forall|row: Record| after.contains(row) <==> rows.contains(row) && row.id
            != id by {
            if after.contains(row) {
                let i = choose|i: int| 0 <= i < after.len() && after[i] == row;
                let j = if i < at { i } else { i + 1 };
                assert(rows[j] == row);
            }
            if rows.contains(row) && row.id != id {
                let j = choose|j: int| 0 <= j < rows.len() && rows[j] == row;
                let i = if j < at { j } else { j - 1 };
                assert(after[i] == row);
            }
        }
    } else {
        assert forall|row: Record| after.contains(row) <==> rows.contains(row) && row.id
            != id by {
            if rows.contains(row) {
                let j = choose|j: int| 0 <= j < rows.len() && rows[j] == row;
                assert(rows[j].id != id);
            }
        }
    }
}

} // verus!
