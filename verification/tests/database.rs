use peekaboo::database::{
    Bind, Statement, DATABASE_URL, DELETE_DID, INSERT_DID, MAX_CONNECTIONS, SELECT_DID,
    SELECT_DIDS, UPDATE_PUBLIC_KEY,
};
use peekaboo::models::{Timestamp, DID};

#[test]
fn pool_is_capped_at_five_connections() {
    assert_eq!(MAX_CONNECTIONS, 5);
}

#[test]
fn store_is_named_by_database_url() {
    assert_eq!(DATABASE_URL, "DATABASE_URL");
}

#[test]
fn statements_are_the_five_of_the_schema() {
    assert_eq!(INSERT_DID, "INSERT INTO dids (id, public_key, created_at) VALUES ($1, $2, $3)");
    assert_eq!(SELECT_DIDS, "SELECT id, public_key, created_at FROM dids");
    assert_eq!(SELECT_DID, "SELECT id, public_key, created_at FROM dids WHERE id = $1");
    assert_eq!(UPDATE_PUBLIC_KEY, "UPDATE dids SET public_key = $1 WHERE id = $2");
    assert_eq!(DELETE_DID, "DELETE FROM dids WHERE id = $1");
}

#[test]
fn insert_binds_id_key_and_time() {
    let at = Some(Timestamp { secs: 1_700_000_000, nanos: 9 });
    let did = DID { id: "did:peekaboo:x".to_string(), public_key: "pk1".to_string(), created_at: at };
    let statement = Statement::InsertDid(did);
    assert_eq!(
        statement.sql(),
        "INSERT INTO dids (id, public_key, created_at) VALUES ($1, $2, $3)"
    );
    assert_eq!(
        statement.binds(),
        vec![
            Bind::Text("did:peekaboo:x".to_string()),
            Bind::Text("pk1".to_string()),
            Bind::Time(at),
        ]
    );
}

#[test]
fn insert_binds_a_missing_time_as_null() {
    let did = DID { id: "a".to_string(), public_key: "pk".to_string(), created_at: None };
    let binds = Statement::InsertDid(did).binds();
    assert_eq!(binds[2], Bind::Time(None));
}

#[test]
fn select_all_binds_nothing() {
    assert_eq!(Statement::SelectDids.sql(), "SELECT id, public_key, created_at FROM dids");
    assert_eq!(Statement::SelectDids.binds(), Vec::new());
}

#[test]
fn select_one_binds_the_id() {
    let statement = Statement::SelectDid("did:peekaboo:x".to_string());
    assert_eq!(statement.sql(), "SELECT id, public_key, created_at FROM dids WHERE id = $1");
    assert_eq!(statement.binds(), vec![Bind::Text("did:peekaboo:x".to_string())]);
}

#[test]
fn update_binds_the_key_before_the_id() {
    let statement = Statement::UpdatePublicKey {
        id: "did:peekaboo:x".to_string(),
        public_key: "pk2".to_string(),
    };
    assert_eq!(statement.sql(), "UPDATE dids SET public_key = $1 WHERE id = $2");
    assert_eq!(
        statement.binds(),
        vec![Bind::Text("pk2".to_string()), Bind::Text("did:peekaboo:x".to_string())]
    );
}

#[test]
fn delete_binds_the_id() {
    let statement = Statement::DeleteDid("did:peekaboo:x".to_string());
    assert_eq!(statement.sql(), "DELETE FROM dids WHERE id = $1");
    assert_eq!(statement.binds(), vec![Bind::Text("did:peekaboo:x".to_string())]);
}
