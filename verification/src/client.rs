//! The proxy's HTTP client.
//!
//! It can operate as a pure HTTP/1 client, a pure HTTP/2 client, or a
//! mixed-mode "orig-proto" client. The orig-proto mode attempts to dispatch
//! HTTP/1 messages over an H2 transport; however, some requests cannot be
//! proxied via this method, so it also maintains a fallback HTTP/1 client.

use crate::error::{split_failure, RequestError};
use http::request::Parts;
use hyper::client::conn::TrySendError;
use std::marker::PhantomData;
use vstd::prelude::*;

verus! {

/// Which protocol a client speaks, and how.
#[derive(Clone, Copy, Debug, PartialEq, Eq, Hash)]
pub enum Params {
    Http1(crate::h1::PoolSettings),
    H2(crate::h2::ClientParams),
    OrigProtoUpgrade(crate::h2::ClientParams, crate::h1::PoolSettings),
}

/// Makes clients. `params` tells the [`Params`] of a target.
#[derive(Debug)]
pub struct MakeClient<X, C, B> {
    pub connect: C,
    pub params: X,
    pub _marker: PhantomData<B>,
}

/// A client of one target.
#[derive(Debug)]
#[verifier::reject_recursive_types(B)]
pub enum Client<C, T, B> {
    H2(crate::h2::Connection<B>),
    Http1(crate::h1::Client<C, T, B>),
    OrigProtoUpgrade(crate::orig_proto::Upgrade<C, T, B>),
}

/// Puts a [`MakeClient`] on top of a connector.
#[derive(Debug)]
pub struct ClientLayer<X, C, B> {
    pub params: X,
    pub _marker: PhantomData<(C, B)>,
}

pub fn layer_via<X: Clone, C, B>(params: X) -> (layer: ClientLayer<X, C, B>)
    ensures
        layer.params == params,
{
    ClientLayer { params, _marker: PhantomData }
}

pub fn layer<C, B>() -> (layer: ClientLayer<(), C, B>)
    ensures
        layer.params == (),
{
    layer_via(())
}

impl<X: Clone, C, B> ClientLayer<X, C, B> {
    pub fn layer(&self, connect: C) -> (make: MakeClient<X, C, B>)
        ensures
            make.connect == connect,
            cloned(self.params, make.params),
    {
        MakeClient { connect, params: self.params.clone(), _marker: PhantomData }
    }
}

impl<X: Clone, C, B> Clone for ClientLayer<X, C, B> {
    fn clone(&self) -> (this: Self)
        ensures
            cloned(self.params, this.params),
    {
        ClientLayer { params: self.params.clone(), _marker: PhantomData }
    }
}

/// What is left to do for a client to be made.
#[verifier::reject_recursive_types(B)]
pub enum Making<C, T, B> {
    /// The client is made.
    Made(Client<C, T, B>),
    /// An HTTP/2 connection to `target` has to be established with `connect`.
    /// What came of it is handed to `then`.
    ConnectH2 { connect: crate::h2::Connect<C, B>, target: T, then: WithH2<C, T, B> },
}

/// What is made of an HTTP/2 connection.
pub enum WithH2<C, T, B> {
    /// A pure HTTP/2 client.
    H2,
    /// A mixed-mode client, whose HTTP/1 client is made of `connect`, `target`
    /// and `pool`.
    OrigProtoUpgrade { connect: C, target: T, pool: crate::h1::PoolSettings, _marker: PhantomData<B> },
}

impl<X, C: Clone, B> MakeClient<X, C, B> {
    /// `making` is how a client of `target` is made, whose parameters are
    /// `settings`.
    pub open spec fn makes<T: Clone>(
        self,
        target: T,
        settings: Params,
        making: Making<C, T, B>,
    ) -> bool {
        match settings {
            Params::H2(params) => making matches Making::ConnectH2 {
                connect,
                target: h2_target,
                then,
            } && {
                &&& cloned(self.connect, connect.connect)
                &&& connect.params == params
                &&& h2_target == target
                &&& then is H2
            },
            Params::Http1(pool) => making matches Making::Made(Client::Http1(http1)) && {
                &&& cloned(self.connect, http1.connect)
                &&& http1.target == target
                &&& http1.pool == pool
            },
            Params::OrigProtoUpgrade(h2_params, h1_params) => making matches Making::ConnectH2 {
                connect,
                target: h2_target,
                then,
            } && then matches WithH2::OrigProtoUpgrade {
                connect: h1_connect,
                target: h1_target,
                pool,
                ..
            } && {
                &&& cloned(self.connect, h1_connect)
                &&& cloned(h1_connect, connect.connect)
                &&& connect.params == h2_params
                &&& cloned(target, h2_target)
                &&& h1_target == target
                &&& pool == h1_params
            },
        }
    }

    /// Starts to make a client of `target`, given its parameters.
    pub fn call<T: Clone>(&self, target: T, settings: Params) -> (making: Making<C, T, B>)
        ensures
            self.makes(target, settings, making),
    {
        let connect = self.connect.clone();
        match settings {
            Params::H2(params) => Making::ConnectH2 {
                connect: crate::h2::Connect::new(connect, params),
                target,
                then: WithH2::H2,
            },
            Params::Http1(params) => Making::Made(
                Client::Http1(crate::h1::Client::new(connect, target, params)),
            ),
            Params::OrigProtoUpgrade(h2_params, h1_params) => Making::ConnectH2 {
                connect: crate::h2::Connect::new(connect.clone(), h2_params),
                target: target.clone(),
                then: WithH2::OrigProtoUpgrade {
                    connect,
                    target,
                    pool: h1_params,
                    _marker: PhantomData,
                },
            },
        }
    }
}

impl<C, T, B> WithH2<C, T, B> {
    /// `made` is the client that is made once `h2` came of the HTTP/2
    /// connection.
    pub open spec fn yields<E>(
        self,
        h2: Result<crate::h2::Connection<B>, E>,
        made: Result<Client<C, T, B>, E>,
    ) -> bool {
        match h2 {
            Err(error) => made == Err::<Client<C, T, B>, E>(error),
            Ok(h2) => match self {
                WithH2::H2 => made == Ok::<Client<C, T, B>, E>(Client::H2(h2)),
                WithH2::OrigProtoUpgrade { connect, target, pool, .. } => made matches Ok(
                    Client::OrigProtoUpgrade(upgrade),
                ) && {
                    &&& upgrade.http1.connect == connect
                    &&& upgrade.http1.target == target
                    &&& upgrade.http1.pool == pool
                    &&& upgrade.h2 == h2
                },
            },
        }
    }

    /// Goes on once the HTTP/2 connection is established, or could not be: no
    /// client is made without it.
    pub fn connected<E>(self, h2: Result<crate::h2::Connection<B>, E>) -> (made: Result<
        Client<C, T, B>,
        E,
    >)
        ensures
            self.yields(h2, made),
    {
        match h2 {
            Err(error) => Err(error),
            Ok(h2) => match self {
                WithH2::H2 => Ok(Client::H2(h2)),
                WithH2::OrigProtoUpgrade { connect, target, pool, .. } => {
                    let http1 = crate::h1::Client::new(connect, target, pool);
                    Ok(Client::OrigProtoUpgrade(crate::orig_proto::Upgrade::new(http1, h2)))
                },
            },
        }
    }
}

impl<X: Clone, C: Clone, B> Clone for MakeClient<X, C, B> {
    fn clone(&self) -> (this: Self)
        ensures
            cloned(self.connect, this.connect),
            cloned(self.params, this.params),
    {
        MakeClient {
            connect: self.connect.clone(),
            params: self.params.clone(),
            _marker: PhantomData,
        }
    }
}

/// What sends a request, and the head with which it is sent.
#[verifier::reject_recursive_types(B)]
pub enum Dispatch<'a, C, T, B> {
    /// The HTTP/2 connection sends it.
    H2(&'a mut crate::h2::Connection<B>, Parts),
    /// The HTTP/1 client sends it.
    Http1(&'a mut crate::h1::Client<C, T, B>, Parts),
    /// The mixed-mode client sends it.
    OrigProtoUpgrade(&'a mut crate::orig_proto::Upgrade<C, T, B>, Parts),
}

impl<C, T, B> Client<C, T, B> {
    /// This client sends requests with the head `head`: those that go to the
    /// HTTP/2 connection itself have the version HTTP/2.
    pub open spec fn takes(self, head: Parts) -> bool {
        self is H2 ==> crate::h2::request::has_h2_version(crate::h2::request::parts_head(head))
    }

    /// Dispatches a request, given its head. Only a request that goes to the
    /// HTTP/2 connection itself is prepared for it.
    pub fn call(&mut self, head: Parts) -> (dispatch: Dispatch<'_, C, T, B>)
        requires
            old(self).takes(head),
        ensures
            match *old(self) {
                Client::H2(conn) => dispatch matches Dispatch::H2(sender, sent) && {
                    &&& *sender == conn
                    &&& *final(self) == Client::<C, T, B>::H2(*final(sender))
                    &&& crate::h2::request::sent_head(
                        crate::h2::request::parts_head(head),
                        crate::h2::request::parts_head(sent),
                    )
                },
                Client::Http1(http1) => dispatch matches Dispatch::Http1(sender, sent) && {
                    &&& *sender == http1
                    &&& *final(self) == Client::Http1(*final(sender))
                    &&& sent == head
                },
                Client::OrigProtoUpgrade(upgrade) => dispatch matches Dispatch::OrigProtoUpgrade(
                    sender,
                    sent,
                ) && {
                    &&& *sender == upgrade
                    &&& *final(self) == Client::OrigProtoUpgrade(*final(sender))
                    &&& sent == head
                },
            },
    {
        match self {
            Client::H2(conn) => Dispatch::H2(conn, crate::h2::request::prepare(head)),
            Client::Http1(http1) => Dispatch::Http1(http1, head),
            Client::OrigProtoUpgrade(upgrade) => Dispatch::OrigProtoUpgrade(upgrade, head),
        }
    }

    /// Dispatches a request of any version as [`Client::call`] does, and tells
    /// whether the client takes it.
    pub fn call_any(&mut self, head: Parts) -> (dispatched: (Dispatch<'_, C, T, B>, bool))
        ensures
            match *old(self) {
                Client::H2(conn) => dispatched.0 matches Dispatch::H2(sender, sent) && {
                    &&& *sender == conn
                    &&& *final(self) == Client::<C, T, B>::H2(*final(sender))
                    &&& crate::h2::request::sent_head(
                        crate::h2::request::parts_head(head),
                        crate::h2::request::parts_head(sent),
                    )
                },
                Client::Http1(http1) => dispatched.0 matches Dispatch::Http1(sender, sent) && {
                    &&& *sender == http1
                    &&& *final(self) == Client::Http1(*final(sender))
                    &&& sent == head
                },
                Client::OrigProtoUpgrade(upgrade) => dispatched.0 matches Dispatch::OrigProtoUpgrade(
                    sender,
                    sent,
                ) && {
                    &&& *sender == upgrade
                    &&& *final(self) == Client::OrigProtoUpgrade(*final(sender))
                    &&& sent == head
                },
            },
            dispatched.1 == old(self).takes(head),
    {
        match self {
            Client::H2(conn) => {
                let (sent, taken) = crate::h2::request::prepare_any(head);
                (Dispatch::H2(conn, sent), taken)
            },
            Client::Http1(http1) => (Dispatch::Http1(http1, head), true),
            Client::OrigProtoUpgrade(upgrade) => (Dispatch::OrigProtoUpgrade(upgrade, head), true),
        }
    }
}

/// Answers a request that an HTTP/2 client could not have answered: with a
/// refusal where the request was recovered, whatever ended the connection, and
/// with the connection's error otherwise.
///
/// hyper returns the request only if it was not serialized.
pub fn refuse_unsent<T>(failure: TrySendError<T>) -> (answer: RequestError)
    ensures
        exists|recovered: bool, error: hyper::Error|
            {
                &&& #[trigger] crate::error::failed_with(failure, recovered, error)
                &&& answer.refuses_or_preserves(recovered, error)
            },
{
    let (recovered, error) = split_failure(failure);
    RequestError::refuse_or_preserve(recovered, error)
}

/// A client speaks the protocol that its parameters say: a pure HTTP/1 client is
/// made at once, without any connection.
pub proof fn law_http1_needs_no_connection<X, C: Clone, T: Clone, B>(
    make: MakeClient<X, C, B>,
    target: T,
    settings: Params,
    making: Making<C, T, B>,
)
    requires
        make.makes(target, settings, making),
    ensures
        settings is Http1 <==> making is Made,
        making matches Making::Made(client) ==> client is Http1,
{
}

/// A client speaks the protocol that its parameters say: where they say HTTP/2,
/// a client is made if and only if a connection was established, it holds that
/// connection, and a mixed-mode client falls back to an HTTP/1 client of the same
/// target with the parameters' pool.
pub proof fn law_h2_client_needs_connection<X, C: Clone, T: Clone, B, E>(
    make: MakeClient<X, C, B>,
    target: T,
    settings: Params,
    making: Making<C, T, B>,
    h2: Result<crate::h2::Connection<B>, E>,
    made: Result<Client<C, T, B>, E>,
)
    requires
        make.makes(target, settings, making),
        making matches Making::ConnectH2 { then, .. } && then.yields(h2, made),
    ensures
        made is Ok <==> h2 is Ok,
        made matches Err(error) ==> h2 == Err::<crate::h2::Connection<B>, E>(error),
        made matches Ok(client) ==> match settings {
            Params::H2(_) => client == Client::<C, T, B>::H2(h2->Ok_0),
            Params::OrigProtoUpgrade(_, pool) => client matches Client::OrigProtoUpgrade(upgrade) && {
                &&& upgrade.h2 == h2->Ok_0
                &&& upgrade.http1.target == target
                &&& upgrade.http1.pool == pool
                &&& cloned(make.connect, upgrade.http1.connect)
            },
            Params::Http1(_) => false,
        },
{
}

/// A request that a connection refuses after the peer's GOAWAY, an HTTP/2 client
/// refuses too; and where the client passes the connection's error on, the
/// connection does so too, with the same error.
pub proof fn law_client_refuses_what_connection_refuses(
    recovered: bool,
    goaway: bool,
    error: hyper::Error,
    by_connection: RequestError,
    by_client: RequestError,
)
    requires
        by_connection.refuses_or_preserves(recovered && goaway, error),
        by_client.refuses_or_preserves(recovered, error),
    ensures
        by_connection.is_refusal() ==> by_client.is_refusal(),
        !by_client.is_refusal() ==> by_client == by_connection,
{
}

/// Where the settings say HTTP/2, the connection that has to be established is
/// asked for with exactly the settings' HTTP/2 parameters, for the same target and
/// with the same connector: for a pure HTTP/2 client and for a mixed-mode client
/// alike.
pub proof fn law_h2_is_asked_for_with_its_settings<X, C: Clone, T: Clone, B>(
    make: MakeClient<X, C, B>,
    target: T,
    settings: Params,
    making: Making<C, T, B>,
)
    requires
        make.makes(target, settings, making),
    ensures
        settings matches Params::H2(params) ==> (making matches Making::ConnectH2 {
            connect,
            target: asked,
            then,
        } && {
            &&& connect.params.flow_control == params.flow_control
            &&& connect.params.keep_alive == params.keep_alive
            &&& connect.params.max_concurrent_reset_streams == params.max_concurrent_reset_streams
            &&& connect.params.max_frame_size == params.max_frame_size
            &&& connect.params.max_send_buf_size == params.max_send_buf_size
            &&& asked == target
            &&& cloned(make.connect, connect.connect)
            &&& then is H2
        }),
        settings matches Params::OrigProtoUpgrade(params, pool) ==> (
        making matches Making::ConnectH2 { connect, target: asked, then } && {
            &&& connect.params.flow_control == params.flow_control
            &&& connect.params.keep_alive == params.keep_alive
            &&& connect.params.max_concurrent_reset_streams == params.max_concurrent_reset_streams
            &&& connect.params.max_frame_size == params.max_frame_size
            &&& connect.params.max_send_buf_size == params.max_send_buf_size
            &&& cloned(target, asked)
            &&& exists|between: C|
                cloned(make.connect, between) && #[trigger] cloned(between, connect.connect)
            &&& then is OrigProtoUpgrade
        }),
{
}

/// An HTTP/1 client is one of the very target, with the settings' pool, and
/// connects with the maker's connector.
pub proof fn law_http1_client_of_its_target<X, C: Clone, T: Clone, B>(
    make: MakeClient<X, C, B>,
    target: T,
    pool: crate::h1::PoolSettings,
    making: Making<C, T, B>,
)
    requires
        make.makes(target, Params::Http1(pool), making),
    ensures
        making matches Making::Made(Client::Http1(http1)) && {
            &&& http1.target == target
            &&& http1.pool.max_idle == pool.max_idle
            &&& http1.pool.idle_timeout == pool.idle_timeout
            &&& cloned(make.connect, http1.connect)
        },
{
}

/// A pure HTTP/2 client and a mixed-mode client with the same HTTP/2 parameters
/// ask for their connections with the same ones.
pub proof fn law_both_h2_clients_ask_alike<X, C: Clone, T: Clone, B>(
    make: MakeClient<X, C, B>,
    target: T,
    params: crate::h2::ClientParams,
    pool: crate::h1::PoolSettings,
    pure: Making<C, T, B>,
    mixed: Making<C, T, B>,
)
    requires
        make.makes(target, Params::H2(params), pure),
        make.makes(target, Params::OrigProtoUpgrade(params, pool), mixed),
    ensures
        pure matches Making::ConnectH2 { connect: a, .. } && mixed matches Making::ConnectH2 {
            connect: b,
            ..
        } && a.params == b.params && a.params == params,
{
}

/// Clients take requests of every version, but for pure HTTP/2 clients, which
/// take those of HTTP/2 alone.
pub proof fn law_only_h2_clients_ask_for_a_version<C, T, B>(client: Client<C, T, B>, head: Parts)
    ensures
        client matches Client::H2(_) ==> (client.takes(head) <==> crate::h2::request::version_kind(
            crate::h2::request::parts_head(head).version,
        ) == crate::h2::request::HttpVersion::H2),
        client matches Client::Http1(_) ==> client.takes(head),
        client matches Client::OrigProtoUpgrade(_) ==> client.takes(head),
{
}

} // verus!
