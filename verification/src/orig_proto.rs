//! The mixed-mode client.

use vstd::prelude::*;

verus! {

/// A client that dispatches HTTP/1 messages over an HTTP/2 connection, and falls
/// back to HTTP/1 for those that cannot be proxied that way.
#[derive(Debug)]
#[verifier::reject_recursive_types(B)]
pub struct Upgrade<C, T, B> {
    pub http1: crate::h1::Client<C, T, B>,
    pub h2: crate::h2::Connection<B>,
}

impl<C, T, B> Upgrade<C, T, B> {
    pub fn new(http1: crate::h1::Client<C, T, B>, h2: crate::h2::Connection<B>) -> (upgrade: Self)
        ensures
            upgrade.http1 == http1,
            upgrade.h2 == h2,
    {
        Upgrade { http1, h2 }
    }
}

} // verus!
