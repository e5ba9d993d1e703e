//! The settings of an HTTP/2 client.

use std::time::Duration;
use vstd::prelude::*;

verus! {

/// How the receive windows of a connection are sized.
#[derive(Clone, Copy, Debug, PartialEq, Eq, Hash)]
pub enum FlowControl {
    /// The windows follow the bandwidth that is observed.
    Adaptive,
    /// The windows have the sizes given here.
    Fixed {
        initial_stream_window_size: u32,
        initial_connection_window_size: u32,
    },
}

/// How a client finds out that its peer is gone: by PING frames.
#[derive(Clone, Copy, Debug, PartialEq, Eq, Hash)]
pub struct ClientKeepAlive {
    /// How long an acknowledgement is waited for.
    pub timeout: Duration,
    /// How long after the last frame a PING is sent.
    pub interval: Duration,
    /// Whether PINGs are sent while no stream is open.
    pub while_idle: bool,
}

/// The settings of an HTTP/2 client. What is `None` is left to the HTTP/2
/// implementation.
#[derive(Clone, Copy, Debug, PartialEq, Eq, Hash)]
pub struct ClientParams {
    pub flow_control: Option<FlowControl>,
    pub keep_alive: Option<ClientKeepAlive>,
    pub max_concurrent_reset_streams: Option<usize>,
    pub max_frame_size: Option<u32>,
    pub max_send_buf_size: Option<usize>,
}

impl ClientParams {
    /// A connection can be configured with these settings: a stream's write
    /// buffer is no larger than `u32::MAX` bytes.
    pub open spec fn valid(self) -> bool {
        self.max_send_buf_size matches Some(max) ==> max <= u32::MAX
    }

    /// Tells whether a connection can be configured with these settings.
    pub fn is_valid(&self) -> (valid: bool)
        ensures
            valid == self.valid(),
    {
        match self.max_send_buf_size {
            None => true,
            Some(max) => max <= 0xffff_ffff,
        }
    }
}

impl Default for ClientParams {
    fn default() -> (params: Self)
        ensures
            params.flow_control is None,
            params.keep_alive is None,
            params.max_concurrent_reset_streams is None,
            params.max_frame_size is None,
            params.max_send_buf_size is None,
    {
        ClientParams {
            flow_control: None,
            keep_alive: None,
            max_concurrent_reset_streams: None,
            max_frame_size: None,
            max_send_buf_size: None,
        }
    }
}

/// Settings can be used if and only if they leave the write buffer's size open
/// or give one that fits in 32 bits; no other setting matters.
pub proof fn law_valid(params: ClientParams, other: ClientParams)
    ensures
        params.max_send_buf_size is None ==> params.valid(),
        params.max_send_buf_size matches Some(max) ==> (params.valid() <==> max < 0x1_0000_0000int),
        params.max_send_buf_size == other.max_send_buf_size ==> (params.valid() <==> other.valid()),
{
}

} // verus!
