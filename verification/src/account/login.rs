//! Logging in against the wallet daemon: the host requests and persists the
//! granted token; the command takes no arguments.

use vstd::prelude::*;

verus! {

/// Log in and store the granted token.
#[derive(Clone, Debug)]
pub struct Command {}

} // verus!
