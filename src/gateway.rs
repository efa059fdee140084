//! The request pipeline: authenticate, derive the session, lease a
//! connection, run the statement, marshal, and wrap it all in an envelope.

use vstd::prelude::*;
use crate::auth::{Config, check_credentials, credentials_match, option_view};
use crate::marshal::{RelationalResult, marshal, marshals_to};
use crate::pool::{ConnectionPool, error_message, run_query};
use crate::session::{derive_session, new_session};
use crate::wire::{ErrorInfo, RequestBody, ResponseBody};

verus! {

/// Status code of a credential mismatch.
pub const UNAUTHORIZED: u32 = 401;

/// Status code of a request that lacks a required field.
pub const BAD_REQUEST: u32 = 400;

/// Status code of a failure to reach the database or to run a statement.
pub const EXECUTION_FAILED: u32 = 500;

/// The envelope of a credential mismatch.
pub open spec fn is_unauthorized(r: ResponseBody) -> bool {
    &&& r.result is None
    &&& r.error is Some
    &&& r.error->Some_0.code == UNAUTHORIZED
    &&& r.error->Some_0.message@ == "Invalid credentials"@
}

/// The envelope of an execution request without a query.
pub open spec fn is_missing_query(r: ResponseBody) -> bool {
    &&& r.result is None
    &&& r.error is Some
    &&& r.error->Some_0.code == BAD_REQUEST
    &&& r.error->Some_0.message@ == "Missing query"@
}

/// The envelope of a statement that ran: a marshalled result with matching
/// arity, or an execution failure.
pub open spec fn is_execution_outcome(r: ResponseBody) -> bool {
    ||| (r.error is None && r.result is Some && exists|rr: RelationalResult|
        rr.has_matching_arity() && #[trigger] marshals_to(rr, r.result->Some_0))
    ||| (r.result is None && r.error is Some && r.error->Some_0.code == EXECUTION_FAILED)
}

fn invalid_credentials() -> (e: ErrorInfo)
    ensures
        e.code == UNAUTHORIZED,
        e.message@ == "Invalid credentials"@,
{
    ErrorInfo { message: String::from_str("Invalid credentials"), code: UNAUTHORIZED }
}

fn missing_query() -> (e: ErrorInfo)
    ensures
        e.code == BAD_REQUEST,
        e.message@ == "Missing query"@,
{
    ErrorInfo { message: String::from_str("Missing query"), code: BAD_REQUEST }
}

/// Opens a session: a new identifier, and a 401 envelope when the
/// credentials do not match the configured ones.
pub fn create_session(config: &Config, username: &String, password: &Option<String>) -> (r:
    ResponseBody)
    ensures
        r.session.is_random_uuid(),
        r.session.is_well_formed(),
        r.timing is None,
        r.result is None || r.error is None,
        credentials_match(config, username@, option_view(*password)) ==> r.error is None
            && r.result is None,
        !credentials_match(config, username@, option_view(*password)) ==> is_unauthorized(r),
{
    let session = new_session();
    if !check_credentials(config, username, password) {
        return ResponseBody::from_error(invalid_credentials(), session);
    }
    ResponseBody::from_session(session)
}

/// The envelope for what a statement produced: its marshalled result, or a
/// 500 error with the engine's message.
pub fn respond(session: crate::session::SessionId, outcome: Result<RelationalResult, String>) -> (r:
    ResponseBody)
    ensures
        r.session == session,
        r.timing is None,
        outcome is Ok ==> r.error is None && r.result is Some && marshals_to(
            outcome->Ok_0,
            r.result->Some_0,
        ),
        outcome is Err ==> r.result is None && r.error == Some(
            ErrorInfo { message: outcome->Err_0, code: EXECUTION_FAILED },
        ),
{
    match outcome {
        Ok(rel) => ResponseBody::from_result(marshal(&rel), session),
        Err(message) => ResponseBody::from_error(ErrorInfo { message, code: EXECUTION_FAILED }, session),
    }
}

/// Runs one statement for an authenticated client. The session is the one
/// supplied, or a new one; a leased connection is released on every path.
/// A request without a query is refused with 400 before any connection is
/// taken, rather than run as an empty statement.
pub fn execute(
    config: &Config,
    pool: &mut ConnectionPool,
    username: &String,
    password: &Option<String>,
    body: RequestBody,
) -> (r: ResponseBody)
    ensures
        final(pool).leased() == old(pool).leased(),
        r.timing is None,
        r.result is None || r.error is None,
        body.session is Some ==> r.session == body.session->Some_0,
        body.session is None ==> r.session.is_random_uuid() && r.session.is_well_formed(),
        !credentials_match(config, username@, option_view(*password)) ==> is_unauthorized(r),
        credentials_match(config, username@, option_view(*password)) && body.query is None
            ==> is_missing_query(r),
        credentials_match(config, username@, option_view(*password)) && body.query is Some
            ==> is_execution_outcome(r),
        !credentials_match(config, username@, option_view(*password)) || body.query is None
            ==> final(pool).attempts() == old(pool).attempts() && final(pool).granted()
            == old(pool).granted() && final(pool).sent() == old(pool).sent(),
        credentials_match(config, username@, option_view(*password)) && body.query is Some
            ==> final(pool).attempts() == old(pool).attempts() + 1 && ((final(pool).granted()
            == old(pool).granted() + 1 && final(pool).sent() == old(pool).sent().push(
            body.query->Some_0@,
        )) || (final(pool).granted() == old(pool).granted() && final(pool).sent() == old(
            pool,
        ).sent() && r.result is None && r.error is Some && r.error->Some_0.code
            == EXECUTION_FAILED)),
{
    let session = derive_session(body.session);
    if !check_credentials(config, username, password) {
        return ResponseBody::from_error(invalid_credentials(), session);
    }
    let query = match body.query {
        Some(q) => q,
        None => return ResponseBody::from_error(missing_query(), session),
    };
    let mut lease = match pool.acquire() {
        Ok(lease) => lease,
        Err(e) => return respond(session, Err(error_message(&e))),
    };
    let outcome = run_query(&mut lease, &query);
    let ghost before = pool.sent();
    let ghost log = lease.sent();
    pool.release(lease);
    assert(before + log =~= before.push(query@));
    let r = respond(session, outcome);
    proof {
        if outcome is Ok {
            assert(outcome->Ok_0.has_matching_arity() && marshals_to(outcome->Ok_0, r.result->Some_0));
        }
    }
    r
}

} // verus!
