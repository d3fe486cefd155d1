use peekaboo::database::Table;
use peekaboo::models::{Timestamp, DID};
use peekaboo::response::{Body, Response};
use peekaboo::routes::DIDRequest;
use peekaboo::service::{create, create_with, delete, get, list, update};

fn request(public_key: &str) -> DIDRequest {
    DIDRequest { public_key: public_key.to_string() }
}

fn text(status: u16, body: &str) -> Response {
    Response { status, body: Body::Text(body.to_string()) }
}

fn created_id(response: &Response) -> String {
    assert_eq!(response.status, 201);
    match &response.body {
        Body::Created(created) => created.id.clone(),
        other => panic!("unexpected body {:?}", other),
    }
}

fn record(response: &Response) -> DID {
    assert_eq!(response.status, 200);
    match &response.body {
        Body::Record(did) => did.clone(),
        other => panic!("unexpected body {:?}", other),
    }
}

fn records(response: &Response) -> Vec<DID> {
    assert_eq!(response.status, 200);
    match &response.body {
        Body::Records(dids) => dids.clone(),
        other => panic!("unexpected body {:?}", other),
    }
}

fn fixed(id: &str, public_key: &str, secs: i64) -> DID {
    DID {
        id: id.to_string(),
        public_key: public_key.to_string(),
        created_at: Some(Timestamp { secs, nanos: 0 }),
    }
}

#[test]
fn create_get_update_get_delete_get() {
    let mut table = Table::new();

    let created = create(&mut table, &request("pk1"));
    let id = created_id(&created);
    assert!(id.starts_with("did:peekaboo:"));

    let first = record(&get(&table, &id));
    assert_eq!(first.id, id);
    assert_eq!(first.public_key, "pk1");
    assert!(first.created_at.is_some());

    assert_eq!(update(&mut table, &id, &request("pk2")), text(200, "DID updated successfully"));

    let second = record(&get(&table, &id));
    assert_eq!(second.id, id);
    assert_eq!(second.public_key, "pk2");
    assert_eq!(second.created_at, first.created_at);

    assert_eq!(delete(&mut table, &id), text(200, "DID deleted successfully"));
    assert_eq!(get(&table, &id), text(404, "DID not found"));
}

#[test]
fn creates_hand_out_distinct_prefixed_ids() {
    let mut table = Table::new();
    let mut ids: Vec<String> = Vec::new();
    for _ in 0..100 {
        let id = created_id(&create(&mut table, &request("pk")));
        assert!(id.starts_with("did:peekaboo:"));
        assert!(!ids.contains(&id));
        ids.push(id);
    }
    assert_eq!(table.len(), 100);
}

#[test]
fn get_after_create_returns_the_record_as_created() {
    let mut table = Table::new();
    let did = fixed("did:peekaboo:0001", "pk1", 42);
    let response = create_with(&mut table, did.clone());
    assert_eq!(created_id(&response), "did:peekaboo:0001");
    assert_eq!(record(&get(&table, "did:peekaboo:0001")), did);
}

#[test]
fn create_under_a_taken_id_answers_500_and_changes_nothing() {
    let mut table = Table::new();
    let first = fixed("did:peekaboo:0001", "pk1", 42);
    assert_eq!(create_with(&mut table, first.clone()).status, 201);
    let second = fixed("did:peekaboo:0001", "pk2", 43);
    assert_eq!(create_with(&mut table, second), text(500, "Failed to create DID"));
    assert_eq!(table.len(), 1);
    assert_eq!(record(&get(&table, "did:peekaboo:0001")), first);
}

#[test]
fn insert_under_a_taken_id_reports_the_key() {
    let mut table = Table::new();
    assert_eq!(table.insert(fixed("a", "pk1", 1)), Ok(1));
    let error = table.insert(fixed("a", "pk2", 2)).expect_err("the id is taken");
    assert_eq!(error.detail, "duplicate key value violates unique constraint");
}

#[test]
fn create_accepts_an_empty_key() {
    let mut table = Table::new();
    let id = created_id(&create(&mut table, &request("")));
    assert_eq!(record(&get(&table, &id)).public_key, "");
}

#[test]
fn update_changes_the_key_and_nothing_else() {
    let mut table = Table::new();
    let a = fixed("a", "pk-a", 1);
    let b = fixed("b", "pk-b", 2);
    let c = DID { id: "c".to_string(), public_key: "pk-c".to_string(), created_at: None };
    assert_eq!(create_with(&mut table, a.clone()).status, 201);
    assert_eq!(create_with(&mut table, b.clone()).status, 201);
    assert_eq!(table.insert(c.clone()), Ok(1));

    assert_eq!(update(&mut table, "b", &request("new")), text(200, "DID updated successfully"));

    assert_eq!(record(&get(&table, "b")), fixed("b", "new", 2));
    assert_eq!(record(&get(&table, "a")), a);
    assert_eq!(record(&get(&table, "c")), c);
    assert_eq!(records(&list(&table)), vec![a, fixed("b", "new", 2), c]);
}

#[test]
fn update_of_a_missing_record_answers_404() {
    let mut table = Table::new();
    assert_eq!(create_with(&mut table, fixed("a", "pk-a", 1)).status, 201);
    assert_eq!(update(&mut table, "zzz", &request("new")), text(404, "DID not found"));
    assert_eq!(records(&list(&table)), vec![fixed("a", "pk-a", 1)]);
}

#[test]
fn update_twice_keeps_the_last_key() {
    let mut table = Table::new();
    assert_eq!(create_with(&mut table, fixed("a", "pk-a", 1)).status, 201);
    assert_eq!(update(&mut table, "a", &request("one")).status, 200);
    assert_eq!(update(&mut table, "a", &request("two")).status, 200);
    assert_eq!(record(&get(&table, "a")), fixed("a", "two", 1));
}

#[test]
fn get_after_delete_answers_404() {
    let mut table = Table::new();
    assert_eq!(create_with(&mut table, fixed("a", "pk-a", 1)).status, 201);
    assert_eq!(delete(&mut table, "a").status, 200);
    assert_eq!(get(&table, "a"), text(404, "DID not found"));
}

#[test]
fn delete_of_a_missing_record_answers_404() {
    let mut table = Table::new();
    assert_eq!(delete(&mut table, "a"), text(404, "DID not found"));
    assert_eq!(create_with(&mut table, fixed("a", "pk-a", 1)).status, 201);
    assert_eq!(delete(&mut table, "b"), text(404, "DID not found"));
    assert_eq!(table.len(), 1);
}

#[test]
fn delete_twice_answers_200_then_404() {
    let mut table = Table::new();
    assert_eq!(create_with(&mut table, fixed("a", "pk-a", 1)).status, 201);
    assert_eq!(delete(&mut table, "a"), text(200, "DID deleted successfully"));
    assert_eq!(delete(&mut table, "a"), text(404, "DID not found"));
}

#[test]
fn get_matches_the_id_exactly() {
    let mut table = Table::new();
    assert_eq!(create_with(&mut table, fixed("did:peekaboo:ab", "pk", 1)).status, 201);
    assert_eq!(get(&table, "did:peekaboo:a").status, 404);
    assert_eq!(get(&table, "did:peekaboo:abc").status, 404);
    assert_eq!(get(&table, "DID:PEEKABOO:AB").status, 404);
    assert_eq!(get(&table, "").status, 404);
    assert_eq!(get(&table, "did:peekaboo:ab").status, 200);
}

#[test]
fn list_of_an_empty_table_is_empty() {
    let table = Table::new();
    assert_eq!(list(&table), Response { status: 200, body: Body::Records(Vec::new()) });
}

#[test]
fn list_returns_every_record_created_and_none_deleted() {
    let mut table = Table::new();
    let mut expected: Vec<DID> = Vec::new();
    for i in 0..5 {
        let did = fixed(&format!("id-{}", i), &format!("pk-{}", i), i);
        assert_eq!(create_with(&mut table, did.clone()).status, 201);
        expected.push(did);
        assert_eq!(records(&list(&table)), expected);
    }
    assert_eq!(delete(&mut table, "id-1").status, 200);
    assert_eq!(delete(&mut table, "id-3").status, 200);
    assert_eq!(delete(&mut table, "id-9").status, 404);
    let left = records(&list(&table));
    assert_eq!(left, vec![fixed("id-0", "pk-0", 0), fixed("id-2", "pk-2", 2), fixed("id-4", "pk-4", 4)]);
    assert_eq!(table.len(), 3);
}

#[test]
fn count_follows_the_replies() {
    let mut table = Table::new();
    let mut net: i64 = 0;
    let steps: Vec<(&str, &str)> = vec![
        ("create", "a"),
        ("create", "b"),
        ("create", "a"),
        ("delete", "c"),
        ("update", "b"),
        ("delete", "a"),
        ("delete", "a"),
        ("create", "a"),
        ("create", "c"),
    ];
    for (what, id) in steps {
        if what == "create" {
            if create_with(&mut table, fixed(id, "pk", 0)).status == 201 {
                net += 1;
            }
        } else if what == "delete" {
            if delete(&mut table, id).status == 200 {
                net -= 1;
            }
        } else {
            update(&mut table, id, &request("other"));
        }
        assert_eq!(table.len() as i64, net);
        assert_eq!(records(&list(&table)).len() as i64, net);
    }
    assert_eq!(net, 3);
}

#[test]
fn statements_report_the_rows_they_touch() {
    let mut table = Table::new();
    assert_eq!(table.insert(fixed("a", "pk", 1)), Ok(1));
    assert_eq!(table.update_public_key("a", "new"), 1);
    assert_eq!(table.update_public_key("b", "new"), 0);
    assert_eq!(table.select_by_id("a"), Some(fixed("a", "new", 1)));
    assert_eq!(table.select_by_id("b"), None);
    assert_eq!(table.select_all(), vec![fixed("a", "new", 1)]);
    assert_eq!(table.delete_by_id("b"), 0);
    assert_eq!(table.delete_by_id("a"), 1);
    assert_eq!(table.select_all(), Vec::new());
}
