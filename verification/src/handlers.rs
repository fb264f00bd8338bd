//! The handler abstraction: one narrow contract every business operation
//! satisfies, an adapter that turns a plain function of the right shape into
//! a handler, and the error taxonomy handlers raise.

pub mod auth;
pub mod context;
pub mod issuer;
pub mod settings;

use crate::error::StoreError;
use crate::handlers::auth::AuthClaims;
use crate::handlers::context::HandlerContext;
use core::marker::PhantomData;
use vstd::prelude::*;
use vstd::string::StringExecFns;

verus! {

/// What a handler can report: a missing resource, or any other internal
/// failure carried with its description.
#[derive(Debug)]
pub enum HandlerError {
    /// Any other handler or store failure; the field carries its description.
    Internal { details: String },
    /// The handler reports a missing resource.
    NotFound,
}

impl HandlerError {
    /// The textual description of the error.
    pub open spec fn spec_message(self) -> Seq<char> {
        match self {
            HandlerError::Internal { details } => "Error: "@ + details@,
            HandlerError::NotFound => "Not found"@,
        }
    }

    /// Renders the error as one line of text.
    pub fn message(&self) -> (r: String)
        ensures
            r@ == self.spec_message(),
    {
        match self {
            HandlerError::Internal { details } => {
                let mut m = "Error: ".to_owned();
                m.append(details.as_str());
                m
            },
            HandlerError::NotFound => "Not found".to_owned(),
        }
    }

    /// Wraps a store failure as an internal handler failure carrying the
    /// store error's description.
    pub fn from_store_error(e: &StoreError) -> (r: HandlerError)
        ensures
            r matches HandlerError::Internal { details } && details@ == e.spec_message(),
    {
        HandlerError::Internal { details: e.message() }
    }
}

/// The contract every business operation satisfies: given the shared
/// context, the verified claims of the caller and a typed request, produce a
/// typed response or a handler error.
pub trait Handler {
    type Req;

    type Resp;

    /// When the handler may be invoked.
    spec fn handle_req(
        &self,
        context: &HandlerContext,
        claims: AuthClaims,
        req: Self::Req,
    ) -> bool;

    /// The relation its outcomes satisfy.
    spec fn handle_ensures(
        &self,
        context: &HandlerContext,
        claims: AuthClaims,
        req: Self::Req,
        r: Result<Self::Resp, HandlerError>,
    ) -> bool;

    /// Runs the operation.
    fn handle(&self, context: &HandlerContext, claims: AuthClaims, req: Self::Req) -> (r: Result<
        Self::Resp,
        HandlerError,
    >)
        requires
            self.handle_req(context, claims, req),
        ensures
            self.handle_ensures(context, claims, req, r),
    ;
}

/// The adapter that registers a plain function as a handler: any function
/// from (context, claims, request) to a response or error is accepted, with
/// its own contract carried over unchanged.
pub struct FnHandler<F, TReq, TResp> {
    pub f: F,
    pub marker: PhantomData<(TReq, TResp)>,
}

impl<F, TReq, TResp> FnHandler<F, TReq, TResp> where
    F: Fn(&HandlerContext, AuthClaims, TReq) -> Result<TResp, HandlerError>,
 {
    /// Wraps the function: the handler's contract is exactly the function's.
    pub fn new(f: F) -> (r: FnHandler<F, TReq, TResp>)
        ensures
            r.f == f,
            forall|context: &HandlerContext, claims: AuthClaims, req: TReq|
                #[trigger] r.handle_req(context, claims, req) == call_requires(
                    f,
                    (context, claims, req),
                ),
            forall|context: &HandlerContext, claims: AuthClaims, req: TReq, out: Result<
                TResp,
                HandlerError,
            >|
                #[trigger] r.handle_ensures(context, claims, req, out) == call_ensures(
                    f,
                    (context, claims, req),
                    out,
                ),
    {
        FnHandler { f, marker: PhantomData }
    }
}

impl<F, TReq, TResp> Handler for FnHandler<F, TReq, TResp> where
    F: Fn(&HandlerContext, AuthClaims, TReq) -> Result<TResp, HandlerError>,
 {
    type Req = TReq;

    type Resp = TResp;

    open spec fn handle_req(&self, context: &HandlerContext, claims: AuthClaims, req: TReq) -> bool {
        call_requires(self.f, (context, claims, req))
    }

    open spec fn handle_ensures(
        &self,
        context: &HandlerContext,
        claims: AuthClaims,
        req: TReq,
        r: Result<TResp, HandlerError>,
    ) -> bool {
        call_ensures(self.f, (context, claims, req), r)
    }

    fn handle(&self, context: &HandlerContext, claims: AuthClaims, req: TReq) -> (r: Result<
        TResp,
        HandlerError,
    >) {
        (self.f)(context, claims, req)
    }
}

} // verus!
