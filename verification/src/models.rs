//! The record, its mathematical view, and how a fresh record is minted.

use vstd::prelude::*;

verus! {

/// Every identifier the service hands out starts with this text.
pub const DID_PREFIX: &'static str = "did:peekaboo:";

/// A point in time: whole seconds since the Unix epoch, and the nanoseconds
/// into that second.
#[derive(Clone, Copy, Debug, PartialEq, Eq, Structural)]
pub struct Timestamp {
    pub secs: i64,
    pub nanos: u32,
}

/// The one entity of the service.
#[derive(Debug, PartialEq, Eq)]
pub struct DID {
    pub id: String,
    pub public_key: String,
    pub created_at: Option<Timestamp>,
}

/// What a [`DID`] is, mathematically.
pub struct Record {
    pub id: Seq<char>,
    pub public_key: Seq<char>,
    pub created_at: Option<Timestamp>,
}

impl View for DID {
    type V = Record;

    open spec fn view(&self) -> Record {
        Record { id: self.id@, public_key: self.public_key@, created_at: self.created_at }
    }
}

impl Clone for DID {
    fn clone(&self) -> (copy: Self)
        ensures
            copy@ == self@,
    {
        DID {
            id: self.id.clone(),
            public_key: self.public_key.clone(),
            created_at: self.created_at,
        }
    }
}

/// A digit or one of the letters `a` to `f`.
pub open spec fn is_lower_hex(c: char) -> bool {
    ('0' <= c && c <= '9') || ('a' <= c && c <= 'f')
}

/// The canonical text of a random (version 4) UUID: 32 lower-case
/// hexadecimal digits in groups of 8, 4, 4, 4 and 12, hyphens between the
/// groups, the version digit `4` and a variant digit of `8` to `b`.
pub open spec fn is_uuid_v4_text(s: Seq<char>) -> bool {
    &&& s.len() == 36
    &&& forall|i: int|
        0 <= i < 36 ==> if i == 8 || i == 13 || i == 18 || i == 23 {
            #[trigger] s[i] == '-'
        } else {
            is_lower_hex(s[i])
        }
    &&& s[14] == '4'
    &&& (s[19] == '8' || s[19] == '9' || s[19] == 'a' || s[19] == 'b')
}

/// An identifier as the service mints it: the prefix, then a version 4 UUID.
pub open spec fn is_minted_id(id: Seq<char>) -> bool {
    &&& DID_PREFIX@.is_prefix_of(id)
    &&& is_uuid_v4_text(id.skip(DID_PREFIX@.len() as int))
}

/// A time as the system clock reports it.
pub open spec fn is_clock_reading(t: Timestamp) -> bool {
    0 <= t.secs && t.nanos < 1_000_000_000
}

/// A record as a create mints it for `public_key`: a minted identifier, the
/// key as given, and a creation time read off the clock.
pub open spec fn is_minted(did: Record, public_key: Seq<char>) -> bool {
    &&& is_minted_id(did.id)
    &&& did.public_key == public_key
    &&& did.created_at matches Some(t) && is_clock_reading(t)
}

/// Calls `uuid::Uuid::new_v4` and renders the result with its `Display`
/// impl. Trusted: the text is always the canonical hyphenated lower-case
/// form of a version 4 UUID. Which UUID comes back is left open; it is
/// drawn from the operating system's random source, and the call panics
/// if that source cannot be read.
#[verifier::external_body]
fn random_uuid_text() -> (text: String)
    ensures
        is_uuid_v4_text(text@),
{
    uuid::Uuid::new_v4().to_string()
}

/// Calls `chrono::Utc::now` and reads the result through
/// `DateTime::timestamp` and `DateTime::timestamp_subsec_nanos`. Trusted:
/// the reading is not before the Unix epoch and its nanoseconds stay below
/// one second. Which instant comes back is left open; the call panics if
/// the system clock stands before the epoch.
#[verifier::external_body]
fn utc_now() -> (now: Timestamp)
    ensures
        is_clock_reading(now),
{
    let now = chrono::Utc::now();
    Timestamp { secs: now.timestamp(), nanos: now.timestamp_subsec_nanos() }
}

impl DID {
    /// Puts a record together from a UUID's text, a public key and a
    /// creation time. The key is stored as given; nothing about it is
    /// checked.
    pub fn from_parts(uuid: &str, public_key: &str, now: Timestamp) -> (did: DID)
        ensures
            did.id@ == DID_PREFIX@ + uuid@,
            did.public_key@ == public_key@,
            did.created_at == Some(now),
    {
        DID {
            id: String::from_str(DID_PREFIX).concat(uuid),
            public_key: public_key.to_owned(),
            created_at: Some(now),
        }
    }

    /// Mints a record for `public_key`: a fresh random identifier under the
    /// prefix, the key as given, and the current time.
    pub fn new(public_key: &str) -> (did: DID)
        ensures
            is_minted(did@, public_key@),
    {
        let uuid = random_uuid_text();
        let now = utc_now();
        let did = DID::from_parts(uuid.as_str(), public_key, now);
        proof {
            assert(did.id@.skip(DID_PREFIX@.len() as int) =~= uuid@);
        }
        did
    }
}

} // verus!
