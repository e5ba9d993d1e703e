//! The HTTP/2 client connection.

pub mod builder;
pub mod cause;
pub mod flag;
pub mod life;
mod params;
pub mod request;

use crate::error::{is_go_away, is_remote, split_failure, RequestError};
use crate::Variant;
use core::sync::atomic::{AtomicBool, Ordering};
use hyper::client::conn::http2::{Builder, SendRequest};
use hyper::client::conn::TrySendError;
use hyper_util::rt::{TokioExecutor, TokioTimer};
use std::marker::PhantomData;
use std::sync::Arc;
use vstd::prelude::*;

use self::cause::{cause_ref, Cause};
use self::flag::{flag, Reader, Recorder};

pub use self::params::{ClientKeepAlive, ClientParams, FlowControl};
pub use ::h2::{Error as H2Error, Reason};

verus! {

/// The sender of an HTTP/2 connection.
#[verifier::external_type_specification]
#[verifier::external_body]
#[verifier::reject_recursive_types(B)]
pub struct ExSendRequest<B>(hyper::client::conn::http2::SendRequest<B>);

/// Establishes HTTP/2 connections.
#[derive(Debug)]
pub struct Connect<C, B> {
    pub connect: C,
    pub params: ClientParams,
    pub _marker: PhantomData<B>,
}

/// An established HTTP/2 connection.
#[derive(Debug)]
#[verifier::reject_recursive_types(B)]
pub struct Connection<B> {
    pub tx: SendRequest<B>,
    /// Set by the connection task when the peer's GOAWAY shuts the
    /// connection down.
    pub peer_goaway: Reader<AtomicBool>,
}

/// The HTTP/2 handshake that follows once a transport is connected.
#[derive(Clone, Copy, Debug)]
pub struct Handshake {
    pub params: ClientParams,
}

/// What the task that drives a connection records of it: how it ended, once.
#[derive(Debug)]
pub struct ConnectionTask {
    peer_goaway: Recorder<AtomicBool>,
}

/// The error produced for a request that hyper canceled--i.e., abandoned
/// before it could be written to a connection--because the peer's GOAWAY shut
/// the connection down.
#[derive(Debug)]
pub struct GoAwayCanceled {
    source: hyper::Error,
}

impl View for GoAwayCanceled {
    type V = hyper::Error;

    /// The error with which hyper canceled the request.
    closed spec fn view(&self) -> hyper::Error {
        self.source
    }
}

impl GoAwayCanceled {
    #[verifier::type_invariant]
    spec fn inv(self) -> bool {
        crate::error::hyper_is_canceled(self.source)
    }

    pub fn new(source: hyper::Error) -> (error: Self)
        requires
            crate::error::hyper_is_canceled(source),
        ensures
            error@ == source,
    {
        GoAwayCanceled { source }
    }

    /// The error with which hyper canceled the request.
    pub fn source(&self) -> (source: &hyper::Error)
        ensures
            *source == self@,
            crate::error::hyper_is_canceled(*source),
    {
        proof {
            use_type_invariant(self);
        }
        &self.source
    }

    /// The error with which hyper canceled the request.
    pub fn into_source(self) -> (source: hyper::Error)
        ensures
            source == self@,
            crate::error::hyper_is_canceled(source),
    {
        proof {
            use_type_invariant(&self);
        }
        self.source
    }

    /// The error as text.
    pub fn to_string(&self) -> (text: String)
        ensures
            exists|source: String| {
                &&& #[trigger] vstd::string::to_string_from_display_ensures(&self@, source)
                &&& text@ == "request canceled by the peer's GOAWAY: "@ + source@
            },
    {
        let source = self.source.to_string();
        let mut text = String::new();
        text.append("request canceled by the peer's GOAWAY: ");
        text.append(source.as_str());
        assert(vstd::string::to_string_from_display_ensures(&self@, source));
        text
    }
}

impl<C, B> Connect<C, B> {
    pub fn new(connect: C, params: ClientParams) -> (this: Self)
        ensures
            this.connect == connect,
            this.params == params,
    {
        Connect { connect, params, _marker: PhantomData }
    }

    /// Starts to connect to `target`: what to connect to, and what to do with
    /// the transport.
    pub fn call<T>(&self, target: T) -> (started: ((Variant, T), Handshake))
        ensures
            started.0 == (Variant::H2, target),
            started.1.params == self.params,
    {
        ((Variant::H2, target), Handshake { params: self.params })
    }
}

impl<C: Clone, B> Clone for Connect<C, B> {
    fn clone(&self) -> (this: Self)
        ensures
            cloned(self.connect, this.connect),
            this.params == self.params,
    {
        Connect { connect: self.connect.clone(), params: self.params, _marker: PhantomData }
    }
}

/// The options of a connection with the settings `params`, where those of a
/// builder are `base` to begin with.
pub open spec fn configured(params: ClientParams, base: builder::Http2Config) -> builder::Http2Config {
    let windows = match params.flow_control {
        None => base,
        Some(FlowControl::Adaptive) => builder::Http2Config {
            adaptive_window: true,
            initial_stream_window_size: builder::SPEC_WINDOW_SIZE,
            initial_conn_window_size: builder::SPEC_WINDOW_SIZE,
            ..base
        },
        Some(
            FlowControl::Fixed { initial_stream_window_size, initial_connection_window_size },
        ) => builder::Http2Config {
            adaptive_window: false,
            initial_stream_window_size,
            initial_conn_window_size: initial_connection_window_size,
            ..base
        },
    };
    let pings = match params.keep_alive {
        None => windows,
        Some(ClientKeepAlive { timeout, interval, while_idle }) => builder::Http2Config {
            keep_alive_timeout: timeout,
            keep_alive_interval: Some(interval),
            keep_alive_while_idle: while_idle,
            ..windows
        },
    };
    builder::Http2Config {
        timer: true,
        max_frame_size: params.max_frame_size,
        max_concurrent_reset_streams: match params.max_concurrent_reset_streams {
            None => base.max_concurrent_reset_streams,
            Some(max) => Some(max),
        },
        max_send_buffer_size: match params.max_send_buf_size {
            None => base.max_send_buffer_size,
            Some(max) => max,
        },
        ..pings
    }
}

/// The builder has the options of a connection with the settings `params`, and
/// where those leave an option open, the one with which a builder is made.
pub open spec fn is_configured(builder: Builder<TokioExecutor>, params: ClientParams) -> bool {
    exists|base: builder::Http2Config|
        {
            &&& #[trigger] builder::is_default_config(base)
            &&& base == builder::default_config(base.keep_alive_timeout)
            &&& builder::builder_config(builder) == configured(params, base)
        }
}

impl Handshake {
    /// Configures a connection.
    pub fn configure(&self) -> (builder: Builder<TokioExecutor>)
        requires
            self.params.valid(),
        ensures
            is_configured(builder, self.params),
    {
        let mut builder = builder::default_builder();
        builder::set_timer(&mut builder, TokioTimer::new());
        match self.params.flow_control {
            None => {},
            Some(FlowControl::Adaptive) => {
                builder::set_adaptive_window(&mut builder, true);
            },
            Some(
                FlowControl::Fixed { initial_stream_window_size, initial_connection_window_size },
            ) => {
                builder::set_initial_stream_window_size(&mut builder, initial_stream_window_size);
                builder::set_initial_connection_window_size(
                    &mut builder,
                    initial_connection_window_size,
                );
            },
        }
        // Configure HTTP/2 PING frames
        if let Some(ClientKeepAlive { timeout, interval, while_idle }) = self.params.keep_alive {
            builder::set_keep_alive_timeout(&mut builder, timeout);
            builder::set_keep_alive_interval(&mut builder, interval);
            builder::set_keep_alive_while_idle(&mut builder, while_idle);
        }
        builder::set_max_frame_size(&mut builder, self.params.max_frame_size);
        if let Some(max) = self.params.max_concurrent_reset_streams {
            builder::set_max_concurrent_reset_streams(&mut builder, max);
        }
        if let Some(max) = self.params.max_send_buf_size {
            builder::set_max_send_buf_size(&mut builder, max);
        }
        builder
    }

    /// Goes on once the transport is connected, or could not be: a transport
    /// is kept, without what came with it, and gets a configured builder to
    /// perform the handshake on it; an error ends the attempt.
    pub fn connected<I, M, E>(&self, transport: Result<(I, M), E>) -> (next: Result<
        (Builder<TokioExecutor>, I),
        E,
    >)
        requires
            transport is Ok ==> self.params.valid(),
        ensures
            match transport {
                Ok((io, _)) => next matches Ok((builder, kept)) && kept == io && is_configured(
                    builder,
                    self.params,
                ),
                Err(error) => next == Err::<(Builder<TokioExecutor>, I), E>(error),
            },
    {
        match transport {
            Ok((io, _meta)) => Ok((self.configure(), io)),
            Err(error) => Err(error),
        }
    }
}

/// The peer's GOAWAY is what ended a connection whose task ended with `end`:
/// it ended without an error, or the first HTTP/2 error among the causes is a
/// GOAWAY that the peer sent.
pub open spec fn ended_by_peer(end: Result<(), Vec<Cause>>) -> bool {
    match end {
        Ok(()) => true,
        Err(causes) => cause::first_h2(causes@) matches Some(error)
            && crate::error::h2_is_go_away(error) && crate::error::h2_is_remote(error),
    }
}

/// A read of the flag gave `goaway`.
pub open spec fn goaway_read(peer_goaway: Arc<AtomicBool>, goaway: bool) -> bool {
    call_ensures(AtomicBool::load, (&*peer_goaway, Ordering::Acquire), goaway)
}

/// The flag was set to `goaway`.
pub open spec fn goaway_written(peer_goaway: Arc<AtomicBool>, goaway: bool) -> bool {
    call_ensures(AtomicBool::store, (&*peer_goaway, goaway, Ordering::Release), ())
}

/// Whether the peer's GOAWAY is what ended a connection.
pub fn is_ended_by_peer(end: &Result<(), Vec<Cause>>) -> (goaway: bool)
    ensures
        goaway == ended_by_peer(*end),
{
    match end {
        // Resolving without an error means the dispatcher shut down
        // cleanly--most commonly on the peer's graceful GOAWAY, though a dropped
        // `SendRequest` or an already-terminated connection also land here.
        // Those two only occur once the dispatch queue is empty, so a request
        // canceled afterwards was never written and marking it stays
        // conservative.
        Ok(()) => true,
        Err(causes) => match cause_ref(causes.as_slice()) {
            Some(error) => is_go_away(error) && is_remote(error),
            None => false,
        },
    }
}

impl ConnectionTask {
    /// The flag that the recording is made in.
    pub closed spec fn flag(self) -> Arc<AtomicBool> {
        self.peer_goaway.holder()
    }

    /// Records how the connection ended, and gives it back.
    ///
    /// Requests queued in the dispatcher are canceled when the connection is
    /// dropped, so this holds `conn` alive: their errors must be able to observe
    /// the flag.
    pub fn ended<D>(self, conn: D, end: &Result<(), Vec<Cause>>) -> (recorded: (D, bool))
        ensures
            recorded.0 == conn,
            recorded.1 == ended_by_peer(*end),
            goaway_written(self.flag(), recorded.1),
    {
        let goaway = is_ended_by_peer(end);
        self.peer_goaway.record(AtomicBool::store, goaway);
        (conn, goaway)
    }
}

/// `marked` is what a caller is told of a request that failed with `error`: that
/// the peer's GOAWAY canceled it, where it was canceled and `goaway` holds, and
/// the error itself otherwise.
pub open spec fn marks(error: hyper::Error, goaway: bool, marked: RequestError) -> bool {
    if crate::error::hyper_is_canceled(error) && goaway {
        marked matches RequestError::GoAwayCanceled(canceled) && canceled@ == error
    } else {
        marked == RequestError::Hyper(error)
    }
}

/// Marks a cancelation caused by the peer's GOAWAY.
pub fn mark_goaway_cancelation(error: hyper::Error, goaway: bool) -> (marked: RequestError)
    ensures
        marks(error, goaway, marked),
{
    if error.is_canceled() && goaway {
        return RequestError::GoAwayCanceled(GoAwayCanceled::new(error));
    }
    RequestError::Hyper(error)
}

/// Answers a request that failed with `error`: with a refusal where it was
/// recovered and the peer's GOAWAY shut the connection down, and with the error
/// otherwise.
pub fn refuse_recovered(recovered: bool, goaway: bool, error: hyper::Error) -> (answer:
    RequestError)
    ensures
        answer.refuses_or_preserves(recovered && goaway, error),
{
    RequestError::refuse_or_preserve(recovered && goaway, error)
}

/// Reads the flag, and marks a cancelation by what it says.
pub fn mark_now(peer_goaway: &Reader<AtomicBool>, error: hyper::Error) -> (marked: RequestError)
    ensures
        exists|goaway: bool| #[trigger]
            goaway_read(peer_goaway.holder(), goaway) && marks(error, goaway, marked),
{
    let goaway = peer_goaway.read(AtomicBool::load);
    assert(goaway_read(peer_goaway.holder(), goaway));
    mark_goaway_cancelation(error, goaway)
}

/// Reads the flag, and answers a request that was not answered by what it says.
pub fn refuse_now<T>(peer_goaway: &Reader<AtomicBool>, failure: TrySendError<T>) -> (answer:
    RequestError)
    ensures
        exists|recovered: bool, goaway: bool, error: hyper::Error|
            {
                &&& #[trigger] crate::error::failed_with(failure, recovered, error)
                &&& #[trigger] goaway_read(peer_goaway.holder(), goaway)
                &&& answer.refuses_or_preserves(recovered && goaway, error)
            },
{
    let goaway = peer_goaway.read(AtomicBool::load);
    assert(goaway_read(peer_goaway.holder(), goaway));
    let (recovered, error) = split_failure(failure);
    refuse_recovered(recovered, goaway, error)
}

impl<B> Connection<B> {
    /// A connection that was just established, and what its task records: both
    /// share one flag, which is not set.
    pub fn new(tx: SendRequest<B>) -> (established: (Self, ConnectionTask))
        ensures
            established.0.tx == tx,
            established.0.peer_goaway.holder() == established.1.flag(),
            call_ensures(AtomicBool::new, (false,), *established.0.peer_goaway.holder()),
    {
        let (peer_goaway, recorder) = flag(AtomicBool::new, false);
        (Connection { tx, peer_goaway }, ConnectionTask { peer_goaway: recorder })
    }

    /// Returns a function that marks this connection's request errors:
    /// cancelations caused by the peer's GOAWAY with [`GoAwayCanceled`]. hyper
    /// only cancels requests it never wrote to the connection, and it does so
    /// without recording why the connection went away, so the connection task's
    /// attribution is the only signal available.
    ///
    /// The flag is read when the function is called, each time anew.
    pub fn mark_goaway_cancelations(&self) -> (mark: impl Fn(hyper::Error) -> RequestError)
        ensures
            forall|error: hyper::Error| #[trigger] call_requires(mark, (error,)),
            forall|error: hyper::Error, marked: RequestError| #[trigger]
                call_ensures(mark, (error,), marked) ==> call_ensures(
                    mark_now,
                    (&self.peer_goaway, error),
                    marked,
                ),
    {
        let peer_goaway = self.peer_goaway.clone();
        move |error: hyper::Error| -> (marked: RequestError)
            ensures
                call_ensures(mark_now, (&peer_goaway, error), marked),
            { mark_now(&peer_goaway, error) }
    }

    /// Returns a function that answers a request that was not answered on this
    /// connection: with a refusal where the request was recovered and the peer's
    /// GOAWAY shut the connection down, and with the connection's error
    /// otherwise.
    ///
    /// The flag is read when the function is called, each time anew.
    pub fn refuse_after_goaway<T>(&self) -> (refuse: impl Fn(TrySendError<T>) -> RequestError)
        ensures
            forall|failure: TrySendError<T>| #[trigger] call_requires(refuse, (failure,)),
            forall|failure: TrySendError<T>, answer: RequestError| #[trigger]
                call_ensures(refuse, (failure,), answer) ==> call_ensures(
                    refuse_now::<T>,
                    (&self.peer_goaway, failure),
                    answer,
                ),
    {
        let peer_goaway = self.peer_goaway.clone();
        move |failure: TrySendError<T>| -> (answer: RequestError)
            ensures
                call_ensures(refuse_now::<T>, (&peer_goaway, failure), answer),
            { refuse_now(&peer_goaway, failure) }
    }
}

/// A connection on which PINGs are sent has a timer to send them by, where the
/// builder sends none of its own accord.
pub proof fn law_pings_have_a_timer(params: ClientParams, base: builder::Http2Config)
    requires
        base.keep_alive_interval is None,
    ensures
        configured(params, base).timer,
        configured(params, base).keep_alive_interval is Some <==> params.keep_alive is Some,
{
}

/// Settings that leave everything open leave the options of the builder, but for
/// the timer and the frame size, which is left to the HTTP/2 implementation.
pub proof fn law_open_settings_leave_options(params: ClientParams, base: builder::Http2Config)
    requires
        params.flow_control is None,
        params.keep_alive is None,
        params.max_concurrent_reset_streams is None,
        params.max_frame_size is None,
        params.max_send_buf_size is None,
    ensures
        configured(params, base) == (builder::Http2Config {
            timer: true,
            max_frame_size: None,
            ..base
        }),
{
}

/// Settings never touch the options that they do not speak of.
pub proof fn law_other_options_stay(params: ClientParams, base: builder::Http2Config)
    ensures
        ({
            let config = configured(params, base);
            &&& config.initial_max_send_streams == base.initial_max_send_streams
            &&& config.max_header_list_size == base.max_header_list_size
            &&& config.max_pending_accept_reset_streams == base.max_pending_accept_reset_streams
            &&& config.max_local_error_reset_streams == base.max_local_error_reset_streams
            &&& config.header_table_size == base.header_table_size
            &&& config.max_concurrent_streams == base.max_concurrent_streams
            &&& config.reset_stream_duration == base.reset_stream_duration
        }),
{
}

/// What ends a connection decides what becomes of a request that was recovered
/// from it: a graceful shutdown has it refused; an end whose causes hold no
/// HTTP/2 error, such as a disconnect or a keep-alive timeout, has its error
/// preserved; and so has one whose first HTTP/2 error is not a GOAWAY of the
/// peer's. The error of a request that was not recovered is always preserved.
pub proof fn law_end_decides(
    end: Result<(), Vec<Cause>>,
    recovered: bool,
    error: hyper::Error,
    answer: RequestError,
)
    requires
        answer.refuses_or_preserves(recovered && ended_by_peer(end), error),
    ensures
        recovered && end is Ok ==> answer.is_refusal(),
        !recovered ==> answer == RequestError::Hyper(error),
        end matches Err(causes) && (forall|i: int|
            0 <= i < causes@.len() ==> #[trigger] causes@[i] is Other) ==> answer
            == RequestError::Hyper(error),
        end matches Err(causes) && (cause::first_h2(causes@) matches Some(first) && !(
        crate::error::h2_is_go_away(first) && crate::error::h2_is_remote(first))) ==> answer
            == RequestError::Hyper(error),
{
    if let Err(causes) = end {
        cause::law_first_h2(causes@);
    }
}

/// A request's error is marked if and only if hyper canceled the request and the
/// peer's GOAWAY shut the connection down. Marked or not, the error stays at
/// hand.
pub proof fn law_marked_or_preserved(error: hyper::Error, goaway: bool, marked: RequestError)
    requires
        marks(error, goaway, marked),
    ensures
        marked is GoAwayCanceled <==> crate::error::hyper_is_canceled(error) && goaway,
        marked matches RequestError::GoAwayCanceled(canceled) ==> canceled@ == error,
        !(marked is GoAwayCanceled) ==> marked == RequestError::Hyper(error),
        !marked.is_refusal(),
{
}

/// PINGs are sent as the keep-alive settings say, in all three respects, whatever
/// else is set; where there are none, the options of the builder stay.
pub proof fn law_pings_follow_their_settings(params: ClientParams, base: builder::Http2Config)
    ensures
        params.keep_alive matches Some(keep_alive) ==> {
            let config = configured(params, base);
            &&& config.keep_alive_while_idle == keep_alive.while_idle
            &&& config.keep_alive_interval == Some(keep_alive.interval)
            &&& config.keep_alive_timeout == keep_alive.timeout
        },
        params.keep_alive is None ==> {
            let config = configured(params, base);
            &&& config.keep_alive_while_idle == base.keep_alive_while_idle
            &&& config.keep_alive_interval == base.keep_alive_interval
            &&& config.keep_alive_timeout == base.keep_alive_timeout
        },
{
}

/// The windows are sized as the flow control says, whatever else is set: each
/// fixed size reaches its own window, adaptive windows start from the 65,535 bytes
/// that HTTP/2 prescribes, and where there is no flow control, the options of the
/// builder stay.
pub proof fn law_windows_follow_their_settings(params: ClientParams, base: builder::Http2Config)
    ensures
        params.flow_control matches Some(
            FlowControl::Fixed { initial_stream_window_size, initial_connection_window_size },
        ) ==> {
            let config = configured(params, base);
            &&& config.initial_stream_window_size == initial_stream_window_size
            &&& config.initial_conn_window_size == initial_connection_window_size
            &&& !config.adaptive_window
        },
        params.flow_control == Some(FlowControl::Adaptive) ==> {
            let config = configured(params, base);
            &&& config.initial_stream_window_size == 65_535
            &&& config.initial_conn_window_size == 65_535
            &&& config.adaptive_window
        },
        params.flow_control is None ==> {
            let config = configured(params, base);
            &&& config.initial_stream_window_size == base.initial_stream_window_size
            &&& config.initial_conn_window_size == base.initial_conn_window_size
            &&& config.adaptive_window == base.adaptive_window
        },
{
}

/// Each limit that is given reaches its own option, whatever else is set. The
/// frame size is handed on also where it is left open; the other two options of
/// the builder stay where they are.
pub proof fn law_limits_follow_their_settings(params: ClientParams, base: builder::Http2Config)
    ensures
        configured(params, base).max_frame_size == params.max_frame_size,
        params.max_concurrent_reset_streams is Some ==> configured(
            params,
            base,
        ).max_concurrent_reset_streams == params.max_concurrent_reset_streams,
        params.max_concurrent_reset_streams is None ==> configured(
            params,
            base,
        ).max_concurrent_reset_streams == base.max_concurrent_reset_streams,
        params.max_send_buf_size is Some ==> Some(configured(params, base).max_send_buffer_size)
            == params.max_send_buf_size,
        params.max_send_buf_size is None ==> configured(params, base).max_send_buffer_size
            == base.max_send_buffer_size,
{
}

/// An option depends on its own setting alone: connections whose settings agree
/// in one respect have the same options in it, however they differ in others.
pub proof fn law_settings_are_independent(
    params: ClientParams,
    other: ClientParams,
    base: builder::Http2Config,
)
    ensures
        params.keep_alive == other.keep_alive ==> {
            let (a, b) = (configured(params, base), configured(other, base));
            &&& a.keep_alive_while_idle == b.keep_alive_while_idle
            &&& a.keep_alive_interval == b.keep_alive_interval
            &&& a.keep_alive_timeout == b.keep_alive_timeout
        },
        params.flow_control == other.flow_control ==> {
            let (a, b) = (configured(params, base), configured(other, base));
            &&& a.adaptive_window == b.adaptive_window
            &&& a.initial_stream_window_size == b.initial_stream_window_size
            &&& a.initial_conn_window_size == b.initial_conn_window_size
        },
        params.max_frame_size == other.max_frame_size ==> configured(params, base).max_frame_size
            == configured(other, base).max_frame_size,
        params.max_concurrent_reset_streams == other.max_concurrent_reset_streams ==> configured(
            params,
            base,
        ).max_concurrent_reset_streams == configured(other, base).max_concurrent_reset_streams,
        params.max_send_buf_size == other.max_send_buf_size ==> configured(
            params,
            base,
        ).max_send_buffer_size == configured(other, base).max_send_buffer_size,
{
}

/// A configured builder has a timer, every setting that is given, and for the rest
/// the options with which a builder is made: no PINGs, fixed windows, and limits
/// as they were.
pub proof fn law_configured_builder(builder: Builder<TokioExecutor>, params: ClientParams)
    requires
        is_configured(builder, params),
    ensures
        ({
            let config = builder::builder_config(builder);
            &&& config.timer
            &&& config.max_frame_size == params.max_frame_size
            &&& match params.keep_alive {
                Some(keep_alive) => {
                    &&& config.keep_alive_while_idle == keep_alive.while_idle
                    &&& config.keep_alive_interval == Some(keep_alive.interval)
                    &&& config.keep_alive_timeout == keep_alive.timeout
                },
                None => {
                    &&& !config.keep_alive_while_idle
                    &&& config.keep_alive_interval is None
                    &&& exists|base: builder::Http2Config| #[trigger]
                        builder::is_default_config(base) && config.keep_alive_timeout
                            == base.keep_alive_timeout
                },
            }
            &&& match params.flow_control {
                Some(FlowControl::Adaptive) => {
                    &&& config.adaptive_window
                    &&& config.initial_stream_window_size == 65_535
                    &&& config.initial_conn_window_size == 65_535
                },
                Some(
                    FlowControl::Fixed { initial_stream_window_size, initial_connection_window_size },
                ) => {
                    &&& !config.adaptive_window
                    &&& config.initial_stream_window_size == initial_stream_window_size
                    &&& config.initial_conn_window_size == initial_connection_window_size
                },
                None => {
                    &&& !config.adaptive_window
                    &&& config.initial_stream_window_size == 2_097_152
                    &&& config.initial_conn_window_size == 5_242_880
                },
            }
            &&& match params.max_concurrent_reset_streams {
                Some(max) => config.max_concurrent_reset_streams == Some(max),
                None => config.max_concurrent_reset_streams is None,
            }
            &&& match params.max_send_buf_size {
                Some(max) => config.max_send_buffer_size == max,
                None => config.max_send_buffer_size == 1_048_576,
            }
        }),
{
}

/// The peer's GOAWAY is what ended a connection if and only if it ended without an
/// error, or the error has an HTTP/2 error among its causes, with none before it,
/// that is a GOAWAY and came from the peer.
pub proof fn law_ended_by_peer(end: Result<(), Vec<Cause>>)
    ensures
        end is Ok ==> ended_by_peer(end),
        end matches Err(causes) ==> (ended_by_peer(end) <==> exists|i: int|
            {
                &&& 0 <= i < causes@.len()
                &&& (#[trigger] causes@[i] matches Cause::H2(error)
                    && crate::error::h2_is_go_away(*error) && crate::error::h2_is_remote(*error))
                &&& forall|j: int| 0 <= j < i ==> #[trigger] causes@[j] is Other
            }),
{
    if let Err(causes) = end {
        cause::law_first_h2(causes@);
        if cause::first_h2(causes@) is Some {
            let first = choose|i: int|
                {
                    &&& 0 <= i < causes@.len()
                    &&& (#[trigger] causes@[i] matches Cause::H2(found) && Some(*found)
                        == cause::first_h2(causes@))
                    &&& forall|j: int| 0 <= j < i ==> #[trigger] causes@[j] is Other
                };
            assert(causes@[first] is H2);
        }
    }
}

/// Reading and writing the flag are an acquiring load and a releasing store of
/// the connection's own atomic, and nothing else.
pub proof fn law_flag_accesses(peer_goaway: Arc<AtomicBool>, goaway: bool)
    ensures
        goaway_read(peer_goaway, goaway) <==> call_ensures(
            AtomicBool::load,
            (&*peer_goaway, Ordering::Acquire),
            goaway,
        ),
        goaway_written(peer_goaway, goaway) <==> call_ensures(
            AtomicBool::store,
            (&*peer_goaway, goaway, Ordering::Release),
            (),
        ),
{
}

} // verus!
