//! The ingestion handler, as decisions: which requests are served, which bodies are
//! published, and which response each outcome gets. The caller performs each step that
//! a decision asks for and hands the outcome back.
use vstd::prelude::*;
use vstd::string::*;
use vstd::utf8::{decode_utf8, valid_utf8};

use crate::json::{
    json_error_description, json_rendering, parses_as_json, reserialize_json, utf8_text,
};
use crate::text::same_text;

verus! {

pub const ROUTE_METHOD: &'static str = "POST";
pub const ROUTE_PATH: &'static str = "/";
pub const TOPIC: &'static str = "before-processor-topic";

pub const STATUS_CREATED: u16 = 201;
pub const STATUS_BAD_REQUEST: u16 = 400;
pub const STATUS_NOT_FOUND: u16 = 404;
pub const STATUS_SERVER_ERROR: u16 = 500;

pub const NOT_FOUND_TEXT: &'static str = "Not found";
pub const READ_FAILURE_PREFIX: &'static str = "Could not read request body: ";
pub const INVALID_UTF8_TEXT: &'static str = "Request body is not valid UTF-8";
pub const INVALID_JSON_PREFIX: &'static str = "Invalid JSON: ";
pub const SENT_TEXT: &'static str = "Message sent to Kafka successfully";
pub const SEND_FAILURE_PREFIX: &'static str = "Error sending message to Kafka: ";

/// An HTTP response: its status code and a plain text body.
pub struct Response {
    pub status: u16,
    pub body: String,
}

/// One message for the broker: the topic and the payload text, with no key.
pub struct Message {
    pub topic: String,
    pub payload: String,
}

/// What the handler asks its caller to do next.
pub enum Step {
    /// Read the whole request body and hand it to `on_body`.
    ReadBody,
    /// Publish the message, wait for the broker's answer and hand it to `on_publish_result`.
    Publish(Message),
    /// Send this response; the request is done.
    Respond(Response),
}

/// Whether a request with this method and path reaches the ingestion route.
pub open spec fn route_matches(method: Seq<char>, path: Seq<char>) -> bool {
    method == ROUTE_METHOD@ && path == ROUTE_PATH@
}

/// Whether a body is published: UTF-8 text that holds one JSON document.
pub open spec fn body_accepted(body: Seq<u8>) -> bool {
    valid_utf8(body) && parses_as_json(decode_utf8(body))
}

fn respond(status: u16, body: String) -> (s: Step)
    ensures
        s matches Step::Respond(r) && r.status == status && r.body@ == body@,
{
    Step::Respond(Response { status, body })
}

/// The first decision on a request, made from its method and path alone: the route's
/// requests go on to have their body read, every other one is answered `404`.
pub fn on_request(method: &str, path: &str) -> (s: Step)
    ensures
        route_matches(method@, path@) ==> s is ReadBody,
        !route_matches(method@, path@) ==> (s matches Step::Respond(r) && r.status
            == STATUS_NOT_FOUND && r.body@ == NOT_FOUND_TEXT@),
{
    if same_text(method, ROUTE_METHOD) && same_text(path, ROUTE_PATH) {
        Step::ReadBody
    } else {
        respond(STATUS_NOT_FOUND, String::from_str(NOT_FOUND_TEXT))
    }
}

/// The decision on a request body, or on the failure to read it. An unreadable body,
/// bytes that are no UTF-8 and text that is no JSON document are answered `400`; a
/// JSON document is written back out as compact JSON and published, whole, to the topic.
pub fn on_body(body: Result<Vec<u8>, String>) -> (s: Step)
    ensures
        body matches Err(e) ==> (s matches Step::Respond(r) && r.status == STATUS_BAD_REQUEST
            && r.body@ == READ_FAILURE_PREFIX@ + e@),
        body matches Ok(b) && !valid_utf8(b@) ==> (s matches Step::Respond(r) && r.status
            == STATUS_BAD_REQUEST && r.body@ == INVALID_UTF8_TEXT@),
        body matches Ok(b) ==> (valid_utf8(b@) && !parses_as_json(decode_utf8(b@)) ==> (
        s matches Step::Respond(r) && r.status == STATUS_BAD_REQUEST && r.body@
            == INVALID_JSON_PREFIX@ + json_error_description(decode_utf8(b@)))),
        body matches Ok(b) ==> (body_accepted(b@) ==> (s matches Step::Publish(m) && m.topic@
            == TOPIC@ && m.payload@ == json_rendering(decode_utf8(b@)))),
        s is Publish <==> (body matches Ok(b) && body_accepted(b@)),
        !(s is ReadBody),
{
    match body {
        Err(e) => respond(STATUS_BAD_REQUEST, String::from_str(READ_FAILURE_PREFIX).concat(e.as_str())),
        Ok(bytes) => match utf8_text(bytes.as_slice()) {
            None => respond(STATUS_BAD_REQUEST, String::from_str(INVALID_UTF8_TEXT)),
            Some(text) => match reserialize_json(text) {
                Err(detail) => respond(
                    STATUS_BAD_REQUEST,
                    String::from_str(INVALID_JSON_PREFIX).concat(detail.as_str()),
                ),
                Ok(payload) => Step::Publish(Message { topic: String::from_str(TOPIC), payload }),
            },
        },
    }
}

/// The response to a published message: `201` once the broker acknowledged it, `500`
/// with the failure's description when it did not.
pub fn on_publish_result(result: Result<(), String>) -> (r: Response)
    ensures
        result is Ok ==> r.status == STATUS_CREATED && r.body@ == SENT_TEXT@,
        result matches Err(e) ==> r.status == STATUS_SERVER_ERROR && r.body@
            == SEND_FAILURE_PREFIX@ + e@,
{
    match result {
        Ok(()) => Response { status: STATUS_CREATED, body: String::from_str(SENT_TEXT) },
        Err(e) => Response {
            status: STATUS_SERVER_ERROR,
            body: String::from_str(SEND_FAILURE_PREFIX).concat(e.as_str()),
        },
    }
}

} // verus!
