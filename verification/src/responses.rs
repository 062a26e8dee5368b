//! The answer to each route: the status and body owed to every outcome of
//! the one database call. Any failure of the call collapses to a fixed
//! internal-error text with status 500, a missing record to 404, and
//! success to 200 with the record, the records, or a fixed text.

use vstd::prelude::*;
use vstd::string::*;
use crate::records::Document;
use crate::routes::{entity_name, entity_word, Entity};
use crate::text::{decimal_digits, u64_to_decimal};

verus! {

/// A response body: fixed text, one record to encode, or a list of them.
#[derive(Clone, PartialEq, Debug)]
pub enum Body {
    Text(String),
    Doc(Document),
    Docs(Vec<Document>),
}

/// An HTTP response: the status code and the body.
#[derive(Clone, PartialEq, Debug)]
pub struct Response {
    pub status: u16,
    pub body: Body,
}

/// `b` is the fixed text `msg`.
pub open spec fn body_is_text(b: Body, msg: Seq<char>) -> bool {
    b matches Body::Text(t) && t@ == msg
}

/// The text sent when the database cannot be reached.
pub open spec fn connect_failed_message() -> Seq<char> {
    "Internal Server Error: Database not accessible"@
}

/// The text sent when a fetched record cannot be decoded.
pub open spec fn bad_data_message() -> Seq<char> {
    "Internal Server Error: Incorrect data types or missing fields in serialization"@
}

/// The text sent when the find call itself fails.
pub open spec fn find_failed_message() -> Seq<char> {
    "Internal Server Error: Secret room found"@
}

/// The text sent when an insert fails.
pub open spec fn insert_failed_message() -> Seq<char> {
    "Internal Server Error: Insert failed"@
}

/// The text sent when a delete fails.
pub open spec fn delete_failed_message() -> Seq<char> {
    "Internal Server Error: You achieved the impossible"@
}

/// The text sent when no record carries the requested id.
pub open spec fn not_found_message(e: Entity, id: nat) -> Seq<char> {
    "No "@ + entity_word(e) + " with id "@ + decimal_digits(id) + " found"@
}

/// The text sent when the records with the requested id were deleted.
pub open spec fn deleted_message(e: Entity, id: nat) -> Seq<char> {
    "Deleted "@ + entity_word(e) + " with id "@ + decimal_digits(id)
}

fn text_response(status: u16, msg: &str) -> (r: Response)
    ensures
        r.status == status,
        body_is_text(r.body, msg@),
{
    Response { status, body: Body::Text(String::from_str(msg)) }
}

/// The greeting at the root path.
pub fn hello_response() -> (r: Response)
    ensures
        r.status == 200,
        body_is_text(r.body, "Hello"@),
{
    text_response(200, "Hello")
}

/// The outcome of looking one record up by id.
#[derive(Clone, PartialEq, Debug)]
pub enum FetchOneOutcome {
    /// The database could not be reached.
    ConnectFailed,
    /// The find call failed or the record could not be decoded.
    QueryFailed,
    /// No record carries the id.
    Missing,
    /// The record that carries the id.
    Found(Document),
}

/// The outcome of fetching every record of a collection.
#[derive(Clone, PartialEq, Debug)]
pub enum FetchAllOutcome {
    /// The database could not be reached.
    ConnectFailed,
    /// The find call itself failed.
    QueryFailed,
    /// A fetched record could not be decoded.
    DecodeFailed,
    /// Every record of the collection.
    Fetched(Vec<Document>),
}

/// The outcome of inserting one record.
#[derive(Clone, PartialEq, Debug)]
pub enum InsertOutcome {
    /// The database could not be reached.
    ConnectFailed,
    /// The insert call failed.
    Failed,
    /// The record was stored.
    Inserted,
}

/// The outcome of deleting the records that carry an id.
#[derive(Clone, PartialEq, Debug)]
pub enum DeleteOutcome {
    /// The database could not be reached.
    ConnectFailed,
    /// The delete call failed.
    Failed,
    /// The matching records (none, one or several) are gone.
    Deleted,
}

fn with_id_message(lead: &str, e: Entity, id: u32, trail: &str) -> (r: String)
    ensures
        r@ == lead@ + entity_word(e) + " with id "@ + decimal_digits(id as nat) + trail@,
{
    let mut s = String::from_str(lead);
    s.append(entity_name(e));
    s.append(" with id ");
    let digits = u64_to_decimal(id as u64);
    s.append(digits.as_str());
    s.append(trail);
    proof {
        assert(s@ =~= lead@ + entity_word(e) + " with id "@ + decimal_digits(id as nat)
            + trail@);
    }
    s
}

/// The response owed to each outcome of a fetch of one record: the record
/// itself with 200, a fixed 404 text naming the entity and the id when it
/// is missing, and the fixed 500 texts on failure.
pub fn fetch_one_response(entity: Entity, id: u32, outcome: FetchOneOutcome) -> (r: Response)
    ensures
        outcome is ConnectFailed ==> r.status == 500 && body_is_text(
            r.body,
            connect_failed_message(),
        ),
        outcome is QueryFailed ==> r.status == 500 && body_is_text(r.body, bad_data_message()),
        outcome is Missing ==> r.status == 404 && body_is_text(
            r.body,
            not_found_message(entity, id as nat),
        ),
        outcome matches FetchOneOutcome::Found(d) ==> r.status == 200 && r.body == Body::Doc(d),
{
    match outcome {
        FetchOneOutcome::ConnectFailed => text_response(
            500,
            "Internal Server Error: Database not accessible",
        ),
        FetchOneOutcome::QueryFailed => text_response(
            500,
            "Internal Server Error: Incorrect data types or missing fields in serialization",
        ),
        FetchOneOutcome::Missing => {
            let msg = with_id_message("No ", entity, id, " found");
            Response { status: 404, body: Body::Text(msg) }
        },
        FetchOneOutcome::Found(d) => Response { status: 200, body: Body::Doc(d) },
    }
}

/// The response owed to each outcome of a fetch of a whole collection:
/// the records with 200, and the fixed 500 texts on the three failures.
pub fn fetch_all_response(outcome: FetchAllOutcome) -> (r: Response)
    ensures
        outcome is ConnectFailed ==> r.status == 500 && body_is_text(
            r.body,
            connect_failed_message(),
        ),
        outcome is QueryFailed ==> r.status == 500 && body_is_text(r.body, find_failed_message()),
        outcome is DecodeFailed ==> r.status == 500 && body_is_text(r.body, bad_data_message()),
        outcome matches FetchAllOutcome::Fetched(docs) ==> r.status == 200 && r.body == Body::Docs(
            docs,
        ),
{
    match outcome {
        FetchAllOutcome::ConnectFailed => text_response(
            500,
            "Internal Server Error: Database not accessible",
        ),
        FetchAllOutcome::QueryFailed => text_response(
            500,
            "Internal Server Error: Secret room found",
        ),
        FetchAllOutcome::DecodeFailed => text_response(
            500,
            "Internal Server Error: Incorrect data types or missing fields in serialization",
        ),
        FetchAllOutcome::Fetched(docs) => Response { status: 200, body: Body::Docs(docs) },
    }
}

/// The response owed to each outcome of an insert: the submitted record
/// echoed with 200 when it was stored, the fixed 500 texts otherwise.
pub fn insert_response(doc: Document, outcome: InsertOutcome) -> (r: Response)
    ensures
        outcome is ConnectFailed ==> r.status == 500 && body_is_text(
            r.body,
            connect_failed_message(),
        ),
        outcome is Failed ==> r.status == 500 && body_is_text(r.body, insert_failed_message()),
        outcome is Inserted ==> r.status == 200 && r.body == Body::Doc(doc),
{
    match outcome {
        InsertOutcome::ConnectFailed => text_response(
            500,
            "Internal Server Error: Database not accessible",
        ),
        InsertOutcome::Failed => text_response(500, "Internal Server Error: Insert failed"),
        InsertOutcome::Inserted => Response { status: 200, body: Body::Doc(doc) },
    }
}

/// The response owed to each outcome of a delete: a fixed 200 text naming
/// the entity and the id when the call went through (whether or not any
/// record matched), the fixed 500 texts otherwise.
pub fn delete_response(entity: Entity, id: u32, outcome: DeleteOutcome) -> (r: Response)
    ensures
        outcome is ConnectFailed ==> r.status == 500 && body_is_text(
            r.body,
            connect_failed_message(),
        ),
        outcome is Failed ==> r.status == 500 && body_is_text(r.body, delete_failed_message()),
        outcome is Deleted ==> r.status == 200 && body_is_text(
            r.body,
            deleted_message(entity, id as nat),
        ),
{
    match outcome {
        DeleteOutcome::ConnectFailed => text_response(
            500,
            "Internal Server Error: Database not accessible",
        ),
        DeleteOutcome::Failed => text_response(
            500,
            "Internal Server Error: You achieved the impossible",
        ),
        DeleteOutcome::Deleted => {
            let msg = with_id_message("Deleted ", entity, id, "");
            proof {
                reveal_strlit("");
                assert(msg@ =~= deleted_message(entity, id as nat));
            }
            Response { status: 200, body: Body::Text(msg) }
        },
    }
}

} // verus!
