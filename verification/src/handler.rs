//! Dispatch of inbound proxy events and shaping of operation outcomes.
//!
//! One invocation is handled in two verified steps. [`plan_event`] matches
//! the event against the fixed route table and returns the single store
//! action it calls for (or the dispatch error). The surrounding binary
//! performs that store call and hands the outcome to the matching
//! responder ([`respond_create`], [`respond_count`], [`respond_get`]),
//! which builds the response envelope.

use crate::json::{count_body, count_body_of, fail_body_of, resource_body, resource_body_of};
use crate::response::CustomApiResponse;
use vstd::prelude::*;

verus! {

/// An inbound proxy event, reduced to the fields the router reads: the
/// resource path template, the HTTP method, the raw request body, and the
/// `message_id` path parameter when the gateway supplied one.
pub struct ApiEvent {
    pub resource: String,
    pub http_method: String,
    pub body: Option<String>,
    pub message_id: Option<String>,
}

/// The one store operation an event calls for.
pub enum StoreAction {
    /// Write the record `{id, message}`.
    PutMessage { id: String, message: String },
    /// Count the records with a count-only scan of the full table.
    CountScan,
    /// Point lookup of the record keyed by `message_id`.
    GetMessage { message_id: String },
}

/// The dispatch failure: the event matched no (route, method) pair.
pub enum HandlerError {
    UnsupportedOperation,
}

/// A stored message record, as read back from the store.
pub struct MessageRecord {
    pub id: String,
    pub message: String,
}

impl View for MessageRecord {
    type V = (Seq<char>, Seq<char>);

    open spec fn view(&self) -> (Seq<char>, Seq<char>) {
        (self.id@, self.message@)
    }
}

impl HandlerError {
    /// The text a dispatch failure carries to the hosting runtime.
    pub fn message(&self) -> (r: String)
        ensures
            r@ == "Unsupported API call"@,
    {
        String::from_str("Unsupported API call")
    }
}

/// A body wrapped in double quotes loses exactly one leading and one
/// trailing quote; any other body is kept verbatim.
pub open spec fn stripped_message(body: Seq<char>) -> Seq<char> {
    if body.len() >= 2 && body[0] == '"' && body[body.len() - 1] == '"' {
        body.subrange(1, body.len() - 1)
    } else {
        body
    }
}

/// The one body on which quote stripping is undefined: a lone double-quote
/// character both begins and ends with a quote, yet holds only the one.
pub open spec fn lone_quote(body: Seq<char>) -> bool {
    body.len() == 1 && body[0] == '"'
}

/// A create body wrapped in double quotes is stored with exactly one
/// leading and one trailing quote removed.
pub proof fn lemma_strip_quoted(body: Seq<char>)
    requires
        body.len() >= 2,
        body[0] == '"',
        body[body.len() - 1] == '"',
    ensures
        stripped_message(body) == body.subrange(1, body.len() - 1),
{
}

/// A create body not wrapped on both sides by a double quote is stored
/// verbatim.
pub proof fn lemma_strip_unquoted(body: Seq<char>)
    requires
        !(body.len() >= 2 && body[0] == '"' && body[body.len() - 1] == '"'),
    ensures
        stripped_message(body) == body,
{
}

/// Strips one layer of surrounding double quotes, if both are present.
pub fn strip_quotes(body: &str) -> (r: String)
    requires
        !lone_quote(body@),
    ensures
        r@ == stripped_message(body@),
{
    let n = body.unicode_len();
    if n >= 2 && body.get_char(0) == '"' && body.get_char(n - 1) == '"' {
        body.substring_char(1, n - 1).to_owned()
    } else {
        body.to_owned()
    }
}

/// Relies on uuid::Uuid::new_v4 and its hyphenated Display rendering: a
/// freshly drawn random version-4 UUID always renders as 36 characters.
/// The value is random, so nothing more is promised of it.
#[verifier::external_body]
fn new_uuid_string() -> (r: String)
    ensures
        r@.len() == 36,
{
    uuid::Uuid::new_v4().to_string()
}

fn str_eq(a: &str, b: &str) -> (r: bool)
    ensures
        r == (a@ == b@),
{
    let x: String = a.to_owned();
    let y: String = b.to_owned();
    x == y
}

/// The create route: POST on `/messages`.
pub open spec fn is_create_route(resource: Seq<char>, method: Seq<char>) -> bool {
    resource == "/messages"@ && method == "POST"@
}

/// The count route: GET on `/messages`.
pub open spec fn is_count_route(resource: Seq<char>, method: Seq<char>) -> bool {
    resource == "/messages"@ && method == "GET"@
}

/// The fetch-by-id route: GET on `/messages/{message_id}`.
pub open spec fn is_get_route(resource: Seq<char>, method: Seq<char>) -> bool {
    resource == "/messages/{message_id}"@ && method == "GET"@
}

/// Matches the event against the fixed route table and returns the store
/// action it calls for, or the dispatch failure when no pair matches.
///
/// On the create route the action carries a freshly generated 36-character
/// id and the request body with one layer of surrounding quotes stripped;
/// on the fetch route it carries the `message_id` path parameter, which
/// the route match guarantees present.
pub fn plan_event(event: &ApiEvent) -> (r: Result<StoreAction, HandlerError>)
    requires
        is_create_route(event.resource@, event.http_method@) ==> (event.body matches Some(b)
            && !lone_quote(b@)),
        is_get_route(event.resource@, event.http_method@) ==> event.message_id is Some,
    ensures
        is_create_route(event.resource@, event.http_method@) ==> (r matches Ok(a) && a matches
            StoreAction::PutMessage { id, message } && id@.len() == 36 && message@
            == stripped_message(event.body->0@)),
        is_count_route(event.resource@, event.http_method@) ==> (r matches Ok(a) && a is CountScan),
        is_get_route(event.resource@, event.http_method@) ==> (r matches Ok(a) && a matches
            StoreAction::GetMessage { message_id } && message_id == event.message_id->0),
        !is_create_route(event.resource@, event.http_method@) && !is_count_route(
            event.resource@,
            event.http_method@,
        ) && !is_get_route(event.resource@, event.http_method@) ==> (r matches Err(e) && e
            is UnsupportedOperation),
{
    proof {
        reveal_strlit("/messages");
        reveal_strlit("/messages/{message_id}");
        reveal_strlit("POST");
        reveal_strlit("GET");
        assert("/messages"@.len() != "/messages/{message_id}"@.len());
        assert("POST"@.len() != "GET"@.len());
    }
    let on_messages = str_eq(event.resource.as_str(), "/messages");
    let on_message_by_id = str_eq(event.resource.as_str(), "/messages/{message_id}");
    let is_post = str_eq(event.http_method.as_str(), "POST");
    let is_get = str_eq(event.http_method.as_str(), "GET");
    if on_messages && is_post {
        match &event.body {
            Some(b) => {
                let id = new_uuid_string();
                let message = strip_quotes(b.as_str());
                Ok(StoreAction::PutMessage { id, message })
            },
            None => {
                // ruled out by the precondition: the create route carries a body
                proof {
                    assert(false);
                }
                Err(HandlerError::UnsupportedOperation)
            },
        }
    } else if on_messages && is_get {
        Ok(StoreAction::CountScan)
    } else if on_message_by_id && is_get {
        match &event.message_id {
            Some(m) => Ok(StoreAction::GetMessage { message_id: m.clone() }),
            None => {
                // ruled out by the precondition: the fetch route carries the parameter
                proof {
                    assert(false);
                }
                Err(HandlerError::UnsupportedOperation)
            },
        }
    } else {
        Err(HandlerError::UnsupportedOperation)
    }
}

/// The status a create outcome maps to: 201 on a successful write, 500 on
/// a store failure.
pub open spec fn create_status_of(put_ok: bool) -> int {
    if put_ok {
        201
    } else {
        500
    }
}

/// The body a create outcome maps to: the stored record on success, the
/// fixed failure text otherwise.
pub open spec fn create_body_of(put_ok: bool, id: Seq<char>, message: Seq<char>) -> Seq<char> {
    if put_ok {
        resource_body_of(id, message)
    } else {
        fail_body_of("Failed creating resource."@)
    }
}

/// Maps the outcome of the store write for `{id, message}` to the
/// response envelope.
pub fn respond_create(put_ok: bool, id: &str, message: &str) -> (r: CustomApiResponse)
    ensures
        r.status_code as int == create_status_of(put_ok),
        r.body matches Some(b) && b@ == create_body_of(put_ok, id@, message@),
{
    if put_ok {
        CustomApiResponse::success(201, Some(resource_body(id, message)))
    } else {
        CustomApiResponse::fail(500, String::from_str("Failed creating resource."))
    }
}

/// The status a count outcome maps to: 200 when the scan returned a
/// count, 400 when it failed.
pub open spec fn count_status_of(count: Option<u64>) -> int {
    if count is Some {
        200
    } else {
        400
    }
}

/// The body a count outcome maps to: the count on success, the fixed
/// failure text otherwise.
pub open spec fn count_result_body_of(count: Option<u64>) -> Seq<char> {
    match count {
        Some(n) => count_body_of(n as nat),
        None => fail_body_of("Failed getting finding message count"@),
    }
}

/// Maps the outcome of the count-only scan (the count, or `None` when the
/// scan failed) to the response envelope.
pub fn respond_count(count: Option<u64>) -> (r: CustomApiResponse)
    ensures
        r.status_code as int == count_status_of(count),
        r.body matches Some(b) && b@ == count_result_body_of(count),
{
    match count {
        Some(n) => CustomApiResponse::success(200, Some(count_body(n))),
        None => CustomApiResponse::fail(400, String::from_str("Failed getting finding message count")),
    }
}

/// The interpolated text of the not-found failure body.
pub open spec fn not_found_message_of(message_id: Seq<char>) -> Seq<char> {
    "Message "@ + message_id + " not found."@
}

/// The status a fetch outcome maps to: 200 when a record was found, 404
/// otherwise.
pub open spec fn get_status_of(item: Option<(Seq<char>, Seq<char>)>) -> int {
    if item is Some {
        200
    } else {
        404
    }
}

/// The body a fetch outcome maps to: the found record, or the not-found
/// text naming the requested id.
pub open spec fn get_body_of(item: Option<(Seq<char>, Seq<char>)>, message_id: Seq<char>) -> Seq<
    char,
> {
    match item {
        Some(rec) => resource_body_of(rec.0, rec.1),
        None => fail_body_of(not_found_message_of(message_id)),
    }
}

/// The record a point lookup handed back, viewed as its field contents.
pub open spec fn item_view(item: Option<&MessageRecord>) -> Option<(Seq<char>, Seq<char>)> {
    match item {
        Some(rec) => Some(rec@),
        None => None,
    }
}

/// Maps the outcome of the point lookup (the record, or `None` when the
/// key holds nothing) to the response envelope.
pub fn respond_get(item: Option<&MessageRecord>, message_id: &str) -> (r: CustomApiResponse)
    ensures
        r.status_code as int == get_status_of(item_view(item)),
        r.body matches Some(b) && b@ == get_body_of(item_view(item), message_id@),
{
    match item {
        Some(rec) => CustomApiResponse::success(
            200,
            Some(resource_body(rec.id.as_str(), rec.message.as_str())),
        ),
        None => {
            let mut m = String::from_str("Message ");
            m.append(message_id);
            m.append(" not found.");
            proof {
                assert(m@ =~= not_found_message_of(message_id@));
            }
            CustomApiResponse::fail(404, m)
        },
    }
}

/// Fetching a message is read-only: the response is a pure function of
/// the stored record and the requested id, so fetching the same id twice
/// against an unchanged store yields an identical payload both times.
pub proof fn lemma_get_idempotent(
    first: Option<(Seq<char>, Seq<char>)>,
    second: Option<(Seq<char>, Seq<char>)>,
    first_id: Seq<char>,
    second_id: Seq<char>,
)
    requires
        first == second,
        first_id == second_id,
    ensures
        get_status_of(first) == get_status_of(second),
        get_body_of(first, first_id) == get_body_of(second, second_id),
{
}

} // verus!
