//! hyper's builder of HTTP/2 client connections, and what its options are set
//! to.

use hyper::client::conn::http2::Builder;
use hyper_util::rt::{TokioExecutor, TokioTimer};
use std::time::Duration;
use vstd::prelude::*;

verus! {

/// hyper's builder of HTTP/2 client connections.
#[verifier::external_type_specification]
#[verifier::external_body]
#[verifier::reject_recursive_types(Ex)]
pub struct ExBuilder<Ex>(hyper::client::conn::http2::Builder<Ex>);

/// The executor that spawns onto the current tokio runtime. It holds nothing.
#[verifier::external_type_specification]
#[verifier::external_body]
pub struct ExTokioExecutor(hyper_util::rt::TokioExecutor);

/// The timer of the current tokio runtime. It holds nothing.
#[verifier::external_type_specification]
#[verifier::external_body]
pub struct ExTokioTimer(hyper_util::rt::TokioTimer);

/// The options of a [`Builder`], as contracts speak of them.
pub struct Http2Config {
    /// Whether a timer was provided.
    pub timer: bool,
    pub adaptive_window: bool,
    pub initial_conn_window_size: u32,
    pub initial_stream_window_size: u32,
    pub initial_max_send_streams: usize,
    pub max_frame_size: Option<u32>,
    pub max_header_list_size: u32,
    pub keep_alive_interval: Option<Duration>,
    pub keep_alive_timeout: Duration,
    pub keep_alive_while_idle: bool,
    pub max_concurrent_reset_streams: Option<usize>,
    pub max_send_buffer_size: usize,
    pub max_pending_accept_reset_streams: Option<usize>,
    pub max_local_error_reset_streams: Option<usize>,
    pub header_table_size: Option<u32>,
    pub max_concurrent_streams: Option<u32>,
    pub reset_stream_duration: Option<Duration>,
}

/// The options that a builder holds.
pub uninterp spec fn builder_config(builder: Builder<TokioExecutor>) -> Http2Config;

/// The window size that HTTP/2 itself prescribes, in bytes.
pub const SPEC_WINDOW_SIZE: u32 = 65_535;

/// The options of a new builder, whose keep-alive timeout is `timeout`.
pub open spec fn default_config(timeout: Duration) -> Http2Config {
    Http2Config {
        timer: false,
        adaptive_window: false,
        initial_conn_window_size: 5_242_880,
        initial_stream_window_size: 2_097_152,
        initial_max_send_streams: 100,
        max_frame_size: Some(16_384),
        max_header_list_size: 16_384,
        keep_alive_interval: None,
        keep_alive_timeout: timeout,
        keep_alive_while_idle: false,
        max_concurrent_reset_streams: None,
        max_send_buffer_size: 1_048_576,
        max_pending_accept_reset_streams: None,
        max_local_error_reset_streams: Some(1024),
        header_table_size: None,
        max_concurrent_streams: None,
        reset_stream_duration: None,
    }
}

/// `TokioExecutor::new`.
pub assume_specification[ TokioExecutor::new ]() -> (exec: TokioExecutor);

/// `TokioTimer::new`.
pub assume_specification[ TokioTimer::new ]() -> (timer: TokioTimer);

/// `Builder::new`: every option has its default. Its default keep-alive timeout
/// is 20 seconds; a `Duration` is opaque here, so this is not stated.
#[verifier::external_body]
fn new_builder(exec: TokioExecutor) -> (builder: Builder<TokioExecutor>)
    ensures
        builder_config(builder) == default_config(builder_config(builder).keep_alive_timeout),
{
    Builder::new(exec)
}

/// `config` holds the options with which a call of `Builder::new` made a builder.
pub closed spec fn is_default_config(config: Http2Config) -> bool {
    exists|exec: TokioExecutor, builder: Builder<TokioExecutor>| #[trigger]
        call_ensures(new_builder, (exec,), builder) && config == builder_config(builder)
}

/// Makes a builder with the default options.
pub fn default_builder() -> (builder: Builder<TokioExecutor>)
    ensures
        is_default_config(builder_config(builder)),
        builder_config(builder) == default_config(builder_config(builder).keep_alive_timeout),
{
    new_builder(TokioExecutor::new())
}

/// `Builder::timer`: the builder has a timer from then on.
#[verifier::external_body]
pub(crate) fn set_timer(builder: &mut Builder<TokioExecutor>, timer: TokioTimer)
    ensures
        builder_config(*final(builder)) == (Http2Config {
            timer: true,
            ..builder_config(*old(builder))
        }),
{
    builder.timer(timer);
}

/// `Builder::adaptive_window`: enabling it puts both windows back to the size
/// that HTTP/2 prescribes; disabling it leaves them.
#[verifier::external_body]
pub(crate) fn set_adaptive_window(builder: &mut Builder<TokioExecutor>, enabled: bool)
    ensures
        enabled ==> builder_config(*final(builder)) == (Http2Config {
            adaptive_window: true,
            initial_conn_window_size: SPEC_WINDOW_SIZE,
            initial_stream_window_size: SPEC_WINDOW_SIZE,
            ..builder_config(*old(builder))
        }),
        !enabled ==> builder_config(*final(builder)) == (Http2Config {
            adaptive_window: false,
            ..builder_config(*old(builder))
        }),
{
    builder.adaptive_window(enabled);
}

/// `Builder::initial_stream_window_size`, given a size: it sets the window of
/// a stream and disables the adaptive window.
#[verifier::external_body]
pub(crate) fn set_initial_stream_window_size(builder: &mut Builder<TokioExecutor>, size: u32)
    ensures
        builder_config(*final(builder)) == (Http2Config {
            adaptive_window: false,
            initial_stream_window_size: size,
            ..builder_config(*old(builder))
        }),
{
    builder.initial_stream_window_size(size);
}

/// `Builder::initial_connection_window_size`, given a size: it sets the window
/// of the connection and disables the adaptive window.
#[verifier::external_body]
pub(crate) fn set_initial_connection_window_size(builder: &mut Builder<TokioExecutor>, size: u32)
    ensures
        builder_config(*final(builder)) == (Http2Config {
            adaptive_window: false,
            initial_conn_window_size: size,
            ..builder_config(*old(builder))
        }),
{
    builder.initial_connection_window_size(size);
}

/// `Builder::keep_alive_timeout`: it sets how long a PING's acknowledgement is
/// waited for.
#[verifier::external_body]
pub(crate) fn set_keep_alive_timeout(builder: &mut Builder<TokioExecutor>, timeout: Duration)
    ensures
        builder_config(*final(builder)) == (Http2Config {
            keep_alive_timeout: timeout,
            ..builder_config(*old(builder))
        }),
{
    builder.keep_alive_timeout(timeout);
}

/// `Builder::keep_alive_interval`, given an interval: PINGs are enabled, with
/// that interval.
#[verifier::external_body]
pub(crate) fn set_keep_alive_interval(builder: &mut Builder<TokioExecutor>, interval: Duration)
    ensures
        builder_config(*final(builder)) == (Http2Config {
            keep_alive_interval: Some(interval),
            ..builder_config(*old(builder))
        }),
{
    builder.keep_alive_interval(interval);
}

/// `Builder::keep_alive_while_idle`: it sets whether PINGs are sent while no
/// stream is open.
#[verifier::external_body]
pub(crate) fn set_keep_alive_while_idle(builder: &mut Builder<TokioExecutor>, enabled: bool)
    ensures
        builder_config(*final(builder)) == (Http2Config {
            keep_alive_while_idle: enabled,
            ..builder_config(*old(builder))
        }),
{
    builder.keep_alive_while_idle(enabled);
}

/// `Builder::max_frame_size`: it sets the option to what it is given, `None`
/// included.
#[verifier::external_body]
pub(crate) fn set_max_frame_size(builder: &mut Builder<TokioExecutor>, size: Option<u32>)
    ensures
        builder_config(*final(builder)) == (Http2Config {
            max_frame_size: size,
            ..builder_config(*old(builder))
        }),
{
    builder.max_frame_size(size);
}

/// `Builder::max_concurrent_reset_streams`: it sets how many streams that were
/// reset locally are remembered.
#[verifier::external_body]
pub(crate) fn set_max_concurrent_reset_streams(builder: &mut Builder<TokioExecutor>, max: usize)
    ensures
        builder_config(*final(builder)) == (Http2Config {
            max_concurrent_reset_streams: Some(max),
            ..builder_config(*old(builder))
        }),
{
    builder.max_concurrent_reset_streams(max);
}

/// `Builder::max_send_buf_size`: it sets the size of a stream's write buffer.
/// It panics on a size above `u32::MAX`.
#[verifier::external_body]
pub(crate) fn set_max_send_buf_size(builder: &mut Builder<TokioExecutor>, max: usize)
    requires
        max <= u32::MAX,
    ensures
        builder_config(*final(builder)) == (Http2Config {
            max_send_buffer_size: max,
            ..builder_config(*old(builder))
        }),
{
    builder.max_send_buf_size(max);
}

/// Default options are those of a builder that a call of `Builder::new` gave.
proof fn law_default_config(config: Http2Config)
    requires
        is_default_config(config),
    ensures
        exists|exec: TokioExecutor, builder: Builder<TokioExecutor>| #[trigger]
            call_ensures(new_builder, (exec,), builder) && builder_config(builder) == config,
{
}

} // verus!
