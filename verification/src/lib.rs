//! The decisions of an HTTP proxy's client: which protocol a client speaks,
//! how an HTTP/2 connection is configured, what is written to it, and what a
//! caller is told of a request that was not answered.

pub mod client;
pub mod error;
pub mod h1;
pub mod h2;
pub mod orig_proto;

use vstd::prelude::*;

verus! {

/// The protocol that a connection speaks.
#[derive(Clone, Copy, Debug, PartialEq, Eq, Hash, Structural)]
pub enum Variant {
    Http1,
    H2,
}

} // verus!
