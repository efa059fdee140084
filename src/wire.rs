//! The wire shapes of requests and responses, and the envelope builders.

use vstd::prelude::*;
use crate::session::{SessionId, derive_session, new_session};

verus! {

/// One result column on the wire.
pub struct Field {
    pub name: String,
    pub field_type: String,
    pub table: Option<String>,
    pub database: Option<String>,
    pub org_table: Option<String>,
    pub org_name: Option<String>,
    pub column_length: Option<u32>,
    pub charset: Option<u32>,
    pub flags: Option<u32>,
    pub column_type: Option<String>,
}

/// One result row on the wire: the decimal byte length of each value (`-1`
/// for SQL NULL) and the base64 text of the non-NULL values laid end to end.
pub struct WireRow {
    pub lengths: Vec<String>,
    pub values: Option<String>,
}

/// A marshalled result: either a write result (affected rows and insert id)
/// or a read result (fields and rows), never both.
pub struct ResultRes {
    pub rows_affected: Option<String>,
    pub insert_id: Option<String>,
    pub fields: Option<Vec<Field>>,
    pub rows: Option<Vec<WireRow>>,
}

impl ResultRes {
    pub open spec fn is_write(&self) -> bool {
        &&& self.rows_affected is Some
        &&& self.insert_id is Some
        &&& self.fields is None
        &&& self.rows is None
    }

    pub open spec fn is_read(&self) -> bool {
        &&& self.rows_affected is None
        &&& self.insert_id is None
        &&& self.fields is Some
        &&& self.rows is Some
    }
}

/// An error reported to the client, with an HTTP-style status code.
pub struct ErrorInfo {
    pub message: String,
    pub code: u32,
}

/// The uniform response body: a session always, and at most one of a result
/// and an error.
pub struct ResponseBody {
    pub session: SessionId,
    pub result: Option<ResultRes>,
    pub error: Option<ErrorInfo>,
    pub timing: Option<u32>,
}

/// The body of a health or execution request.
pub struct RequestBody {
    pub query: Option<String>,
    pub session: Option<SessionId>,
}

impl RequestBody {
    /// The body assumed when a request carries none: an empty query under a
    /// new session.
    pub fn default() -> (r: RequestBody)
        ensures
            r.query is Some && r.query->Some_0@ == Seq::<char>::empty(),
            r.session is Some && r.session->Some_0.is_random_uuid()
                && r.session->Some_0.is_well_formed(),
    {
        RequestBody { query: Some(String::new()), session: Some(new_session()) }
    }
}

impl ResponseBody {
    /// An error envelope.
    pub fn from_error(error: ErrorInfo, session: SessionId) -> (r: ResponseBody)
        ensures
            r.session == session,
            r.error == Some(error),
            r.result is None,
            r.timing is None,
    {
        ResponseBody { session, result: None, error: Some(error), timing: None }
    }

    /// An envelope with neither result nor error.
    pub fn from_session(session: SessionId) -> (r: ResponseBody)
        ensures
            r.session == session,
            r.error is None,
            r.result is None,
            r.timing is None,
    {
        ResponseBody { session, result: None, error: None, timing: None }
    }

    /// A result envelope.
    pub fn from_result(result: ResultRes, session: SessionId) -> (r: ResponseBody)
        ensures
            r.session == session,
            r.result == Some(result),
            r.error is None,
            r.timing is None,
    {
        ResponseBody { session, result: Some(result), error: None, timing: None }
    }
}

/// Answers a health check: the session of the request body (a new one when
/// there is no body or it names none), with neither result nor error.
pub fn health(body: Option<RequestBody>) -> (r: ResponseBody)
    ensures
        r.error is None,
        r.result is None,
        r.timing is None,
        !(body is Some && body->Some_0.session is Some) ==> r.session.is_random_uuid()
            && r.session.is_well_formed(),
        body is Some && body->Some_0.session is Some ==> r.session
            == body->Some_0.session->Some_0,
{
    let body = match body {
        Some(b) => b,
        None => RequestBody::default(),
    };
    ResponseBody::from_session(derive_session(body.session))
}

} // verus!
