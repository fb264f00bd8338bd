//! The dispatch core: the response envelope, the method router that splits
//! `namespace.action` on the first dot, the registry of known methods, the
//! mapper from the internal error taxonomy to protocol error objects, and
//! the one pipeline that invokes a handler and wraps its outcome.
//!
//! Authentication happens before anything here runs; the host hands in
//! claims it has already verified.

use crate::handlers::auth::AuthClaims;
use crate::handlers::context::HandlerContext;
use crate::handlers::{Handler, HandlerError};
use crate::strutil::{find_char, str_eq};
use vstd::prelude::*;
use vstd::string::StrSliceExecFns;
use vstd::string::StringExecFns;

verus! {

/// The protocol code of an unknown method.
pub const METHOD_NOT_FOUND_CODE: i32 = -32601;

/// The protocol code of parameters that fail to decode.
pub const INVALID_PARAMS_CODE: i32 = -32602;

/// The application code of a missing resource.
pub const NOT_FOUND_CODE: i32 = 404;

/// The application code of any other handler failure.
pub const INTERNAL_CODE: i32 = 500;

/// A protocol error object: a code and a message.
#[derive(Debug)]
pub struct RpcError {
    pub code: i32,
    pub message: String,
}

/// The payload of a response: the typed result, or an error object.
#[derive(Debug)]
pub enum RpcAnswer<T> {
    Result(T),
    Error(RpcError),
}

/// One response envelope, always carrying the request's id.
#[derive(Debug)]
pub struct RpcResponse<T> {
    pub id: i64,
    pub answer: RpcAnswer<T>,
}

/// The registered methods.
#[derive(Clone, Copy, Debug, PartialEq, Eq, Structural)]
pub enum Route {
    AuthGetClaims,
    SettingsGet,
    SettingsPut,
    IssuerCreate,
}

/// The index of the first dot of a method name, if any.
pub open spec fn spec_find_dot(m: Seq<char>) -> Option<int>
    decreases m.len(),
{
    if m.len() == 0 {
        None
    } else if m[0] == '.' {
        Some(0)
    } else {
        match spec_find_dot(m.drop_first()) {
            Some(i) => Some(i + 1),
            None => None,
        }
    }
}

/// The registry: which route a (namespace, action) pair names.
pub open spec fn spec_lookup(ns: Seq<char>, action: Seq<char>) -> Option<Route> {
    if ns == "auth"@ && action == "get_claims"@ {
        Some(Route::AuthGetClaims)
    } else if ns == "settings"@ && action == "get"@ {
        Some(Route::SettingsGet)
    } else if ns == "settings"@ && action == "put"@ {
        Some(Route::SettingsPut)
    } else if ns == "issuer"@ && action == "create"@ {
        Some(Route::IssuerCreate)
    } else {
        None
    }
}

/// What a method name resolves to: split on the first dot, then looked up;
/// a name without a dot resolves to nothing.
pub open spec fn spec_resolve(m: Seq<char>) -> Option<Route> {
    match spec_find_dot(m) {
        None => None,
        Some(i) => spec_lookup(m.take(i), m.skip(i + 1)),
    }
}

proof fn lemma_find_dot_at(m: Seq<char>, i: int)
    requires
        0 <= i < m.len(),
        m[i] == '.',
        forall|j: int| 0 <= j < i ==> m[j] != '.',
    ensures
        spec_find_dot(m) == Some(i),
    decreases i,
{
    if i > 0 {
        lemma_find_dot_at(m.drop_first(), i - 1);
    }
}

proof fn lemma_find_dot_none(m: Seq<char>)
    requires
        forall|j: int| 0 <= j < m.len() ==> m[j] != '.',
    ensures
        spec_find_dot(m) is None,
    decreases m.len(),
{
    if m.len() > 0 {
        lemma_find_dot_none(m.drop_first());
    }
}

/// Law: a method name without a dot never routes, so dispatch answers it
/// with the method-not-found error, whatever the name.
pub proof fn lemma_dotless_method_unrouted(m: Seq<char>)
    requires
        forall|j: int| 0 <= j < m.len() ==> m[j] != '.',
    ensures
        spec_resolve(m) is None,
{
    lemma_find_dot_none(m);
}

/// Looks a (namespace, action) pair up in the registry. Registering a new
/// method means extending this function and `spec_lookup`; the dispatch
/// pipeline itself is untouched.
pub fn lookup(ns: &str, action: &str) -> (r: Option<Route>)
    ensures
        r == spec_lookup(ns@, action@),
{
    if str_eq(ns, "auth") && str_eq(action, "get_claims") {
        Some(Route::AuthGetClaims)
    } else if str_eq(ns, "settings") && str_eq(action, "get") {
        Some(Route::SettingsGet)
    } else if str_eq(ns, "settings") && str_eq(action, "put") {
        Some(Route::SettingsPut)
    } else if str_eq(ns, "issuer") && str_eq(action, "create") {
        Some(Route::IssuerCreate)
    } else {
        None
    }
}

/// Splits a method name on its first dot and resolves the parts; exactly
/// the registered `namespace.action` names resolve.
pub fn resolve_method(method: &str) -> (r: Option<Route>)
    ensures
        r == spec_resolve(method@),
{
    let len = method.unicode_len();
    match find_char(method, '.') {
        None => {
            proof {
                lemma_find_dot_none(method@);
            }
            None
        },
        Some(i) => {
            proof {
                lemma_find_dot_at(method@, i as int);
            }
            let ns = method.substring_char(0, i);
            let action = method.substring_char(i + 1, len);
            proof {
                assert(ns@ =~= method@.take(i as int));
                assert(action@ =~= method@.skip(i as int + 1));
            }
            lookup(ns, action)
        },
    }
}

/// The message an unknown method is answered with, echoing the name.
pub open spec fn spec_method_not_found_message(method: Seq<char>) -> Seq<char> {
    "Method `"@ + method + "` not found"@
}

/// The response to a method the registry does not know: the protocol
/// method-not-found error, echoing the submitted method string, under the
/// request's id.
pub fn method_not_found<T>(id: i64, method: &str) -> (r: RpcResponse<T>)
    ensures
        r.id == id,
        r.answer matches RpcAnswer::Error(e) && e.code == METHOD_NOT_FOUND_CODE && e.message@
            == spec_method_not_found_message(method@),
{
    let mut message = "Method `".to_owned();
    message.append(method);
    message.append("` not found");
    RpcResponse { id, answer: RpcAnswer::Error(RpcError { code: METHOD_NOT_FOUND_CODE, message }) }
}

/// The response to parameters that failed to decode into the handler's
/// request type, carrying the decoder's description.
pub fn invalid_params<T>(id: i64, details: String) -> (r: RpcResponse<T>)
    ensures
        r.id == id,
        r.answer matches RpcAnswer::Error(e) && e.code == INVALID_PARAMS_CODE && e.message@
            == details@,
{
    RpcResponse {
        id,
        answer: RpcAnswer::Error(RpcError { code: INVALID_PARAMS_CODE, message: details }),
    }
}

/// How a protocol error object renders an internal handler error: a missing
/// resource is the application 404 with its fixed message; anything else is
/// the application 500 carrying the cause's description.
pub open spec fn err_reflects(e: HandlerError, err: RpcError) -> bool {
    match e {
        HandlerError::NotFound => err.code == NOT_FOUND_CODE && err.message@ == "Not found"@,
        HandlerError::Internal { details } => err.code == INTERNAL_CODE && err.message@
            == details@,
    }
}

/// Maps a handler error to its response envelope under the request's id.
pub fn resolve_handler_error<T>(id: i64, e: &HandlerError) -> (r: RpcResponse<T>)
    ensures
        r.id == id,
        r.answer matches RpcAnswer::Error(err) && err_reflects(*e, err),
{
    let err = match e {
        HandlerError::NotFound => RpcError { code: NOT_FOUND_CODE, message: "Not found".to_owned() },
        HandlerError::Internal { details } => RpcError {
            code: INTERNAL_CODE,
            message: details.clone(),
        },
    };
    RpcResponse { id, answer: RpcAnswer::Error(err) }
}

/// How a response envelope reflects a handler outcome: a success is wrapped
/// as the result under the request's id, a failure is mapped by
/// `err_reflects`.
pub open spec fn response_reflects<T>(id: i64, h: Result<T, HandlerError>, r: RpcResponse<T>) -> bool {
    r.id == id && match h {
        Ok(resp) => r.answer == RpcAnswer::<T>::Result(resp),
        Err(e) => r.answer matches RpcAnswer::Error(err) && err_reflects(e, err),
    }
}

/// The one invocation pipeline every dispatched request runs through:
/// parameters that failed to decode are answered with the invalid-params
/// error before the handler runs; otherwise the handler's outcome is wrapped
/// into the envelope, always under the request's id.
pub fn call_handler<H: Handler>(
    context: &HandlerContext,
    claims: AuthClaims,
    answer_id: i64,
    params: Result<H::Req, String>,
    handler: &H,
) -> (r: RpcResponse<H::Resp>)
    requires
        params matches Ok(req) ==> handler.handle_req(context, claims, req),
    ensures
        params matches Err(d) ==> r.id == answer_id && (r.answer matches RpcAnswer::Error(e)
            && e.code == INVALID_PARAMS_CODE && e.message@ == d@),
        params matches Ok(req) ==> exists|h: Result<H::Resp, HandlerError>|
            #[trigger] handler.handle_ensures(context, claims, req, h) && response_reflects(
                answer_id,
                h,
                r,
            ),
{
    match params {
        Ok(req) => match handler.handle(context, claims, req) {
            Ok(resp) => RpcResponse { id: answer_id, answer: RpcAnswer::Result(resp) },
            Err(e) => resolve_handler_error(answer_id, &e),
        },
        Err(details) => invalid_params(answer_id, details),
    }
}

} // verus!
