# linkerd_proxy_http

The HTTP client of a proxy, as a Verus library. It speaks HTTP/1, HTTP/2, or
dispatches HTTP/1 messages over an HTTP/2 connection with a fallback to HTTP/1.

The library holds what the client decides:

- `client`: how a client of a target is made, which of its parts sends a request,
  and what a caller is told of a request that was never written.
- `h2`: how an HTTP/2 connection is configured, which version its requests are
  sent with, how its end is attributed to the peer's GOAWAY or not, and what that
  means for the requests that were queued on it.
- `h2::life`: what holds over the whole life of connections: in which order they
  are established, end, are dropped, and their requests fail.
- `h2::builder`, `h2::request`, `error`: the parts of hyper, http and h2 that the
  decisions rest on, with the contracts that are taken of them.
- `h1`, `orig_proto`: what the other two clients are made of.

A request that hyper hands back was not written to the connection. An HTTP/2
client answers it with REFUSED_STREAM, so that it can be sent again; every other
error reaches the caller as it came.

`app/` holds the tower services that connect, send and await around the library.
`tests/` runs both ends of real connections over an in-memory transport.
