use crate::document::JsonValue;
use crate::fields::DecodeError;
use crate::thread::{spec_thread_posts, thread_error, thread_valid, Thread};
use vstd::prelude::*;

verus! {

/// The address of a thread's JSON document. Board and thread identifier
/// are put in as given, with no escaping or check.
pub open spec fn thread_url_of(board: Seq<char>, thread_id: Seq<char>) -> Seq<char> {
    "https://a.4cdn.org/"@ + board + "/thread/"@ + thread_id + ".json"@
}

/// Builds the address of a thread's JSON document.
pub fn thread_url(board: &str, thread_id: &str) -> (r: String)
    ensures
        r@ == thread_url_of(board@, thread_id@),
{
    let mut url = "https://a.4cdn.org/".to_owned();
    url.append(board);
    url.append("/thread/");
    url.append(thread_id);
    url.append(".json");
    url
}

/// Why a response did not give a thread.
#[derive(Debug, Clone, PartialEq)]
pub enum ResponseError {
    /// The service answered with a status outside 200..=299.
    Status(u16),
    /// The body of a successful response is not JSON.
    NotJson,
    /// The body is JSON but does not read as a thread.
    Decode(DecodeError),
}

/// A status that reports success.
pub open spec fn status_ok(status: u16) -> bool {
    200 <= status <= 299
}

/// Reads the thread out of a response: its status, and its body parsed as
/// JSON (`None` where the body is not JSON). A status other than success is
/// an error whatever the body holds, so a missing board or thread never
/// reads as a thread.
pub fn thread_from_response(status: u16, body: &Option<JsonValue>) -> (r: Result<Thread, ResponseError>)
    ensures
        !status_ok(status) ==> r == Err::<Thread, ResponseError>(ResponseError::Status(status)),
        status_ok(status) && body.is_none() ==> r == Err::<Thread, ResponseError>(ResponseError::NotJson),
        status_ok(status) && body.is_some() ==> (r is Ok <==> thread_valid(body->Some_0)),
        r matches Ok(t) ==> status_ok(status) && body.is_some() && t.posts@ == spec_thread_posts(body->Some_0),
        r matches Err(ResponseError::Decode(e)) ==> body.is_some() && thread_error(body->Some_0, e),
{
    if status < 200 || status > 299 {
        return Err(ResponseError::Status(status));
    }
    match body {
        Some(doc) => match Thread::decode(doc) {
            Ok(t) => Ok(t),
            Err(e) => Err(ResponseError::Decode(e)),
        },
        None => Err(ResponseError::NotJson),
    }
}

} // verus!
