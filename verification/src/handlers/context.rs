//! The process-lifetime bundle of dependencies handed to every request.
//! Built once at startup and only ever shared by reference. The persistent
//! store's pooled handle lives with the host that performs the queries,
//! beside this context; what every handler needs from the context here is
//! the signing secret.

use crate::handlers::auth::Keys;
use vstd::prelude::*;

verus! {

/// The dependencies shared by every concurrently running request.
pub struct HandlerContext {
    jwt_secret: Keys,
}

impl HandlerContext {
    /// The bytes of the signing secret the context was built with.
    pub closed spec fn spec_secret(&self) -> Seq<u8> {
        self.jwt_secret.spec_secret()
    }

    /// Derives the signing keys from the secret, once, at startup.
    pub fn new(jwt_secret: String) -> (r: HandlerContext)
        ensures
            r.spec_secret() == vstd::utf8::encode_utf8(jwt_secret@),
    {
        HandlerContext { jwt_secret: Keys::new(jwt_secret.as_str().as_bytes()) }
    }

    /// The signing keys.
    pub fn jwt_secret(&self) -> (r: &Keys)
        ensures
            r.spec_secret() == self.spec_secret(),
    {
        &self.jwt_secret
    }
}

} // verus!
