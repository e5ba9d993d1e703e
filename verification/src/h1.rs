//! The HTTP/1 client.

use std::marker::PhantomData;
use std::time::Duration;
use vstd::prelude::*;

verus! {

/// How idle connections are kept.
#[derive(Clone, Copy, Debug, PartialEq, Eq, Hash)]
pub struct PoolSettings {
    pub max_idle: usize,
    pub idle_timeout: Duration,
}

/// An HTTP/1 client of one target. It connects when it is first used.
#[derive(Debug)]
pub struct Client<C, T, B> {
    pub connect: C,
    pub target: T,
    pub pool: PoolSettings,
    pub _marker: PhantomData<B>,
}

impl<C, T, B> Client<C, T, B> {
    pub fn new(connect: C, target: T, pool: PoolSettings) -> (client: Self)
        ensures
            client.connect == connect,
            client.target == target,
            client.pool == pool,
    {
        Client { connect, target, pool, _marker: PhantomData }
    }
}

} // verus!
