//! The `issuer.create` operation. Creating the issuer record on the ledger
//! is carried out by the host against the remote chain client; the operation
//! itself currently acknowledges the request.

use crate::handlers::auth::AuthClaims;
use crate::handlers::context::HandlerContext;
use crate::handlers::HandlerError;
use vstd::prelude::*;

verus! {

/// Acknowledges an issuer-creation request.
pub fn create(_context: &HandlerContext, _auth_claims: AuthClaims, _req: ()) -> (r: Result<
    (),
    HandlerError,
>)
    ensures
        r is Ok,
{
    Ok(())
}

} // verus!
