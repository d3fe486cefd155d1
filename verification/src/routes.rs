//! The endpoints: the routing table, and what each endpoint answers once the
//! store has spoken.
//!
//! Each handler here takes the outcome of the one statement its endpoint
//! sends to the store and decides the response. Talking to the store is the
//! caller's business.

use vstd::prelude::*;
use crate::models::{DID, Record};
use crate::response::{
    Body, Content, DIDResponse, Reply, Response, records_of, text_reply, CREATED,
    INTERNAL_SERVER_ERROR, NOT_FOUND, OK,
};

verus! {

/// The JSON body that create and update take.
#[derive(Debug, PartialEq, Eq)]
pub struct DIDRequest {
    pub public_key: String,
}

/// A statement that the store could not carry out. The detail is for the
/// server's log; no response ever carries it.
#[derive(Debug, PartialEq, Eq)]
pub struct StoreError {
    pub detail: String,
}

/// The two methods the service answers to.
#[derive(Clone, Copy, Debug, PartialEq, Eq, Structural)]
pub enum Method {
    Get,
    Post,
}

/// The six endpoints.
#[derive(Clone, Copy, Debug, PartialEq, Eq, Structural)]
pub enum Endpoint {
    Root,
    CreateDid,
    GetDids,
    GetDid,
    UpdateDid,
    DeleteDid,
}

/// One line of the routing table. In a path, `:id` stands for the
/// identifier that the request names.
#[derive(Clone, Copy, Debug, PartialEq, Eq)]
pub struct Route {
    pub method: Method,
    pub path: &'static str,
    pub endpoint: Endpoint,
}

/// What a [`Route`] is, mathematically.
pub struct RouteLine {
    pub method: Method,
    pub path: Seq<char>,
    pub endpoint: Endpoint,
}

impl View for Route {
    type V = RouteLine;

    open spec fn view(&self) -> RouteLine {
        RouteLine { method: self.method, path: self.path@, endpoint: self.endpoint }
    }
}

/// Where the banner is.
pub const ROOT_PATH: &'static str = "/";

/// Where create is.
pub const CREATE_DID_PATH: &'static str = "/create_did";

/// Where list is.
pub const GET_DIDS_PATH: &'static str = "/get_dids";

/// Where get by id is.
pub const GET_DID_PATH: &'static str = "/get_did/:id";

/// Where update is.
pub const UPDATE_DID_PATH: &'static str = "/update_did/:id";

/// Where delete is.
pub const DELETE_DID_PATH: &'static str = "/delete_did/:id";

/// The routing table: which method and path lead to which endpoint.
pub open spec fn routing_table() -> Seq<RouteLine> {
    seq![
        RouteLine { method: Method::Get, path: ROOT_PATH@, endpoint: Endpoint::Root },
        RouteLine { method: Method::Post, path: CREATE_DID_PATH@, endpoint: Endpoint::CreateDid },
        RouteLine { method: Method::Get, path: GET_DIDS_PATH@, endpoint: Endpoint::GetDids },
        RouteLine { method: Method::Get, path: GET_DID_PATH@, endpoint: Endpoint::GetDid },
        RouteLine { method: Method::Post, path: UPDATE_DID_PATH@, endpoint: Endpoint::UpdateDid },
        RouteLine { method: Method::Post, path: DELETE_DID_PATH@, endpoint: Endpoint::DeleteDid },
    ]
}

/// What the service says at `/`.
pub const BANNER: &'static str = "Peekaboo API is running! \u{1F3AD}";

/// The body of every 404.
pub const NOT_FOUND_TEXT: &'static str = "DID not found";

/// The body of a 500 from create.
pub const CREATE_FAILED_TEXT: &'static str = "Failed to create DID";

/// The body of a 500 from list.
pub const LIST_FAILED_TEXT: &'static str = "Failed to fetch DIDs";

/// The body of a 500 from get by id.
pub const GET_FAILED_TEXT: &'static str = "Failed to fetch DID";

/// The body of a 500 from update.
pub const UPDATE_FAILED_TEXT: &'static str = "Failed to update DID";

/// The body of a 500 from delete.
pub const DELETE_FAILED_TEXT: &'static str = "Failed to delete DID";

/// The body of a 200 from update.
pub const UPDATED_TEXT: &'static str = "DID updated successfully";

/// The body of a 200 from delete.
pub const DELETED_TEXT: &'static str = "DID deleted successfully";

/// The reply to a create, given the record that was sent to the store and
/// whether the insert went through.
pub open spec fn create_reply(did: Record, inserted: bool) -> Reply {
    if inserted {
        Reply { status: CREATED, content: Content::Created(did.id) }
    } else {
        text_reply(INTERNAL_SERVER_ERROR, CREATE_FAILED_TEXT@)
    }
}

/// The reply to a list, given the rows that the store returned, if it
/// returned any.
pub open spec fn list_reply(rows: Option<Seq<Record>>) -> Reply {
    match rows {
        Some(rows) => Reply { status: OK, content: Content::Records(rows) },
        None => text_reply(INTERNAL_SERVER_ERROR, LIST_FAILED_TEXT@),
    }
}

/// The reply to a get by id, given what the store found, if it answered.
pub open spec fn get_reply(found: Option<Option<Record>>) -> Reply {
    match found {
        Some(Some(row)) => Reply { status: OK, content: Content::Record(row) },
        Some(None) => text_reply(NOT_FOUND, NOT_FOUND_TEXT@),
        None => text_reply(INTERNAL_SERVER_ERROR, GET_FAILED_TEXT@),
    }
}

/// The reply to an update, given how many rows the store changed, if it
/// answered.
pub open spec fn update_reply(affected: Option<u64>) -> Reply {
    match affected {
        Some(n) => if n == 0 {
            text_reply(NOT_FOUND, NOT_FOUND_TEXT@)
        } else {
            text_reply(OK, UPDATED_TEXT@)
        },
        None => text_reply(INTERNAL_SERVER_ERROR, UPDATE_FAILED_TEXT@),
    }
}

/// The reply to a delete, given how many rows the store removed, if it
/// answered.
pub open spec fn delete_reply(affected: Option<u64>) -> Reply {
    match affected {
        Some(n) => if n == 0 {
            text_reply(NOT_FOUND, NOT_FOUND_TEXT@)
        } else {
            text_reply(OK, DELETED_TEXT@)
        },
        None => text_reply(INTERNAL_SERVER_ERROR, DELETE_FAILED_TEXT@),
    }
}

/// The routing table, one [`Route`] per endpoint.
pub fn create_routes() -> (routes: Vec<Route>)
    ensures
        routes@.map_values(|route: Route| route@) == routing_table(),
{
    let mut routes: Vec<Route> = Vec::new();
    routes.push(Route { method: Method::Get, path: ROOT_PATH, endpoint: Endpoint::Root });
    routes.push(
        Route { method: Method::Post, path: CREATE_DID_PATH, endpoint: Endpoint::CreateDid },
    );
    routes.push(Route { method: Method::Get, path: GET_DIDS_PATH, endpoint: Endpoint::GetDids });
    routes.push(Route { method: Method::Get, path: GET_DID_PATH, endpoint: Endpoint::GetDid });
    routes.push(
        Route { method: Method::Post, path: UPDATE_DID_PATH, endpoint: Endpoint::UpdateDid },
    );
    routes.push(
        Route { method: Method::Post, path: DELETE_DID_PATH, endpoint: Endpoint::DeleteDid },
    );
    assert(routes@.map_values(|route: Route| route@) =~= routing_table());
    routes
}

/// No two lines of the routing table have the same method and path, and
/// each endpoint has exactly one line: a request is routed to one handler
/// at most.
pub proof fn law_routes_are_distinct()
    ensures
        forall|i: int, j: int|
            0 <= i < j < routing_table().len() ==> {
                let a = #[trigger] routing_table()[i];
                let b = #[trigger] routing_table()[j];
                a.endpoint != b.endpoint && (a.method != b.method || a.path != b.path)
            },
{
    reveal_strlit("/");
    reveal_strlit("/create_did");
    reveal_strlit("/get_dids");
    reveal_strlit("/get_did/:id");
    reveal_strlit("/update_did/:id");
    reveal_strlit("/delete_did/:id");
    let table = routing_table();
    assert(table.len() == 6);
    assert(table[0].path.len() == 1);
    assert(table[1].path.len() == 11);
    assert(table[2].path.len() == 9);
    assert(table[3].path.len() == 12);
    assert(table[4].path[1] == 'u');
    assert(table[5].path[1] == 'd');
    assert forall|i: int, j: int| 0 <= i < j < table.len() implies {
        let a = #[trigger] table[i];
        let b = #[trigger] table[j];
        a.endpoint != b.endpoint && (a.method != b.method || a.path != b.path)
    } by {
        if i == 4 && j == 5 {
            assert(table[i].path[1] != table[j].path[1]);
        }
    }
}

/// `GET /`: the banner.
pub fn root() -> (response: Response)
    ensures
        response@ == text_reply(OK, BANNER@),
{
    Response::text(OK, BANNER)
}

/// `POST /create_did`, after the insert of `did`: 201 with the new
/// identifier if the insert went through, 500 with a fixed text if not.
pub fn create_did(did: DID, outcome: Result<u64, StoreError>) -> (response: Response)
    ensures
        response@ == create_reply(did@, outcome is Ok),
{
    match outcome {
        Ok(_) => Response { status: CREATED, body: Body::Created(DIDResponse { id: did.id }) },
        Err(_) => Response::text(INTERNAL_SERVER_ERROR, CREATE_FAILED_TEXT),
    }
}

/// `GET /get_dids`, after the select: 200 with the rows as the store gave
/// them, or 500 with a fixed text.
pub fn get_dids(outcome: Result<Vec<DID>, StoreError>) -> (response: Response)
    ensures
        response@ == list_reply(
            match outcome {
                Ok(rows) => Some(records_of(rows@)),
                Err(_) => None,
            },
        ),
{
    match outcome {
        Ok(rows) => Response { status: OK, body: Body::Records(rows) },
        Err(_) => Response::text(INTERNAL_SERVER_ERROR, LIST_FAILED_TEXT),
    }
}

/// `GET /get_did/:id`, after the select: 200 with the row, 404 if there is
/// none, or 500 with a fixed text.
pub fn get_did(outcome: Result<Option<DID>, StoreError>) -> (response: Response)
    ensures
        response@ == get_reply(
            match outcome {
                Ok(Some(row)) => Some(Some(row@)),
                Ok(None) => Some(None),
                Err(_) => None,
            },
        ),
{
    match outcome {
        Ok(Some(row)) => Response { status: OK, body: Body::Record(row) },
        Ok(None) => Response::text(NOT_FOUND, NOT_FOUND_TEXT),
        Err(_) => Response::text(INTERNAL_SERVER_ERROR, GET_FAILED_TEXT),
    }
}

/// `POST /update_did/:id`, after the update: 404 if no row changed, 200 if
/// one did, or 500 with a fixed text.
pub fn update_did(outcome: Result<u64, StoreError>) -> (response: Response)
    ensures
        response@ == update_reply(
            match outcome {
                Ok(n) => Some(n),
                Err(_) => None,
            },
        ),
{
    match outcome {
        Ok(affected) => {
            if affected == 0 {
                Response::text(NOT_FOUND, NOT_FOUND_TEXT)
            } else {
                Response::text(OK, UPDATED_TEXT)
            }
        },
        Err(_) => Response::text(INTERNAL_SERVER_ERROR, UPDATE_FAILED_TEXT),
    }
}

/// `POST /delete_did/:id`, after the delete: 404 if no row went, 200 if one
/// did, or 500 with a fixed text.
pub fn delete_did(outcome: Result<u64, StoreError>) -> (response: Response)
    ensures
        response@ == delete_reply(
            match outcome {
                Ok(n) => Some(n),
                Err(_) => None,
            },
        ),
{
    match outcome {
        Ok(affected) => {
            if affected == 0 {
                Response::text(NOT_FOUND, NOT_FOUND_TEXT)
            } else {
                Response::text(OK, DELETED_TEXT)
            }
        },
        Err(_) => Response::text(INTERNAL_SERVER_ERROR, DELETE_FAILED_TEXT),
    }
}

} // verus!
