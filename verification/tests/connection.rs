//! HTTP/2 connections over an in-memory transport.

use bytes::Bytes;
use futures::future::{select, Either};
use futures::{Future, TryFutureExt};
use http_body_util::Empty;
use hyper::body::Incoming;
use hyper_util::rt::TokioIo;
use linkerd_proxy_http::error::RequestError;
use linkerd_proxy_http::h2::cause::{cause_ref, Cause};
use linkerd_proxy_http::h2::request::prepare;
use linkerd_proxy_http::h2::{
    is_ended_by_peer, mark_goaway_cancelation, refuse_recovered, ClientKeepAlive, ClientParams,
    Connect, Connection, GoAwayCanceled, H2Error, Reason,
};
use linkerd_proxy_http::Variant;
use std::error::Error;
use tokio::io::DuplexStream;
use tokio::sync::oneshot;
use tokio::time::{self, Duration};

const TIMEOUT: Duration = Duration::from_secs(5);

type Body = Empty<Bytes>;

fn run<F: Future<Output = ()>>(start_paused: bool, test: F) {
    let runtime = tokio::runtime::Builder::new_current_thread()
        .enable_all()
        .start_paused(start_paused)
        .build()
        .expect("runtime must build");
    runtime.block_on(async move {
        time::timeout(TIMEOUT, test)
            .await
            .expect("test must complete")
    });
}

fn causes<'a>(error: &'a (dyn Error + 'static)) -> Vec<Cause<'a>> {
    let mut causes = Vec::new();
    let mut next = Some(error);
    while let Some(error) = next {
        causes.push(match error.downcast_ref::<H2Error>() {
            Some(h2) => Cause::H2(h2),
            None => Cause::Other,
        });
        next = error.source();
    }
    causes
}

async fn connect() -> (Connection<Body>, DuplexStream) {
    connect_with_params(ClientParams::default()).await
}

async fn connect_with_params(params: ClientParams) -> (Connection<Body>, DuplexStream) {
    let (client_io, server_io) = tokio::io::duplex(64 * 1024);
    assert!(params.is_valid());
    let ((variant, ()), handshake) = Connect::<(), Body>::new((), params).call(());
    assert_eq!(variant, Variant::H2);
    let (builder, io) = handshake
        .connected(Ok::<_, ()>((client_io, "metadata")))
        .expect("transport must be kept");
    let (tx, mut conn) = builder
        .handshake(TokioIo::new(io))
        .await
        .expect("client handshake must succeed");
    let (connection, task) = Connection::new(tx);
    tokio::spawn(async move {
        let result = (&mut conn).await;
        let end = match &result {
            Ok(()) => Ok(()),
            Err(error) => Err(causes(error)),
        };
        let (conn, _) = task.ended(conn, &end);
        drop(conn);
    });
    (connection, server_io)
}

fn http_get() -> http::Request<Body> {
    http::Request::builder()
        .version(http::Version::HTTP_2)
        .uri("http://server.test/")
        .body(Body::default())
        .expect("request must be valid")
}

fn prepared(req: http::Request<Body>) -> http::Request<Body> {
    let (parts, body) = req.into_parts();
    http::Request::from_parts(prepare(parts), body)
}

fn call(
    conn: &mut Connection<Body>,
    req: http::Request<Body>,
) -> impl Future<Output = hyper::Result<http::Response<Incoming>>> {
    conn.tx.send_request(prepared(req))
}

fn send_request_or_refuse(
    conn: &mut Connection<Body>,
    req: http::Request<Body>,
) -> impl Future<Output = Result<http::Response<Incoming>, RequestError>> {
    let refuse = conn.refuse_after_goaway();
    conn.tx.try_send_request(prepared(req)).map_err(refuse)
}

fn assert_refused(error: &RequestError) {
    match error {
        RequestError::H2(h2) => assert_eq!(h2.reason(), Some(Reason::REFUSED_STREAM)),
        error => panic!("must carry an H2 error: {error:?}"),
    }
}

fn assert_canceled_without_h2(error: &RequestError, source: &str) {
    match error {
        RequestError::Hyper(hyper) => {
            assert!(
                cause_ref(&causes(hyper)).is_none(),
                "{source} must preserve the original error: {error:?}"
            );
            assert!(hyper.is_canceled(), "request must be recovered: {error:?}");
        }
        error => panic!("{source} must preserve the Hyper error: {error:?}"),
    }
}

/// Accepts no stream until `wait` resolves.
async fn idle_server(
    server_io: DuplexStream,
    ready: oneshot::Sender<()>,
    wait: oneshot::Receiver<()>,
) -> h2::server::Connection<DuplexStream, Bytes> {
    let mut server = h2::server::Builder::new()
        .max_concurrent_streams(0)
        .handshake::<_, Bytes>(server_io)
        .await
        .expect("server handshake must succeed");
    let mut ping = server.ping_pong().expect("ping handle must be available");
    {
        let acknowledged = Box::pin(async move {
            ping.ping(h2::Ping::opaque())
                .await
                .expect("client must acknowledge settings");
            ready.send(()).expect("client must wait for settings");
            wait.await.expect("client must signal");
        });
        let accepted = Box::pin(server.accept());
        if let Either::Left((request, _)) = select(accepted, acknowledged).await {
            panic!("server must not accept a request: {request:?}");
        }
    }
    server
}

#[test]
fn refuses_request_recovered_after_graceful_goaway() {
    run(false, async {
        let (mut conn, server_io) = connect().await;
        let (ready, wait_ready) = oneshot::channel();
        let (shutdown, wait_shutdown) = oneshot::channel();
        let server = tokio::spawn(async move {
            let mut server = idle_server(server_io, ready, wait_shutdown).await;
            server.graceful_shutdown();
            while let Some(Ok(_)) = server.accept().await {}
        });

        wait_ready.await.expect("server must signal readiness");
        let _pending_open = call(&mut conn, http_get());
        let response = send_request_or_refuse(&mut conn, http_get());
        shutdown.send(()).expect("server must await shutdown");

        let error = response.await.expect_err("request must be refused");
        assert_refused(&error);
        server.await.expect("server task must not panic");
    });
}

#[test]
fn preserves_request_error_without_goaway() {
    run(true, async {
        let (mut conn, server_io) = connect().await;
        let (ready, wait_ready) = oneshot::channel();
        let (disconnect, wait_disconnect) = oneshot::channel();
        let server = tokio::spawn(async move {
            drop(idle_server(server_io, ready, wait_disconnect).await);
        });

        wait_ready.await.expect("server must signal readiness");
        let _pending_open = call(&mut conn, http_get());
        let response = send_request_or_refuse(&mut conn, http_get());
        disconnect.send(()).expect("server must await disconnect");

        let error = time::timeout(Duration::from_secs(1), response)
            .await
            .expect("request must complete")
            .expect_err("request must fail");
        assert_canceled_without_h2(&error, "disconnect");
        server.await.expect("server task must not panic");
    });
}

#[test]
fn preserves_recovered_request_when_client_is_dropped() {
    run(true, async {
        let (mut conn, server_io) = connect().await;
        let response = send_request_or_refuse(&mut conn, http_get());
        drop(conn);
        drop(server_io);

        let error = time::timeout(Duration::from_secs(1), response)
            .await
            .expect("request must complete")
            .expect_err("request must fail");
        assert_canceled_without_h2(&error, "client shutdown");
    });
}

#[test]
fn preserves_recovered_request_after_keep_alive_timeout() {
    run(true, async {
        let params = ClientParams {
            keep_alive: Some(ClientKeepAlive {
                interval: Duration::from_millis(1),
                timeout: Duration::from_millis(1),
                while_idle: true,
            }),
            ..ClientParams::default()
        };
        let (mut conn, server_io) = connect_with_params(params).await;
        let (ready, wait_ready) = oneshot::channel::<()>();
        let (done, wait_done) = oneshot::channel::<()>();
        let server = tokio::spawn(async move {
            let mut server = h2::server::Builder::new()
                .max_concurrent_streams(0)
                .handshake::<_, Bytes>(server_io)
                .await
                .expect("server handshake must succeed");
            let mut ping = server.ping_pong().expect("ping handle must be available");
            {
                let acknowledged = Box::pin(ping.ping(h2::Ping::opaque()));
                let accepted = Box::pin(server.accept());
                match select(accepted, acknowledged).await {
                    Either::Left((request, _)) => {
                        panic!("server must not accept a request: {request:?}")
                    }
                    Either::Right((result, _)) => {
                        result.expect("client must acknowledge settings");
                        ready.send(()).expect("client must wait for settings");
                    }
                }
            }
            wait_done.await.expect("client must signal completion");
        });

        wait_ready.await.expect("server must signal readiness");
        let _pending_open = call(&mut conn, http_get());
        let error = send_request_or_refuse(&mut conn, http_get())
            .await
            .expect_err("request must fail");
        assert_canceled_without_h2(&error, "keep-alive timeout");
        done.send(()).expect("server must await completion");
        server.await.expect("server task must not panic");
    });
}

#[test]
fn preserves_error_for_accepted_request() {
    run(true, async {
        let (mut conn, server_io) = connect().await;
        let (done, wait_done) = oneshot::channel::<()>();
        let server = tokio::spawn(async move {
            let mut server = h2::server::handshake(server_io)
                .await
                .expect("server handshake must succeed");
            let (_, mut respond) = server
                .accept()
                .await
                .expect("server must remain open")
                .expect("server must accept the request");
            respond.send_reset(Reason::INTERNAL_ERROR);
            let accepted = Box::pin(server.accept());
            if let Either::Right((request, _)) = select(wait_done, accepted).await {
                panic!("server must not accept another request: {request:?}");
            };
        });

        let error = send_request_or_refuse(&mut conn, http_get())
            .await
            .expect_err("request must fail");
        match &error {
            RequestError::Hyper(hyper) => {
                let causes = causes(hyper);
                let h2 = cause_ref(&causes)
                    .unwrap_or_else(|| panic!("must carry an H2 error: {error:?}"));
                assert_eq!(h2.reason(), Some(Reason::INTERNAL_ERROR));
            }
            error => panic!("must carry hyper's error: {error:?}"),
        }
        done.send(()).expect("server must await completion");
        server.await.expect("server task must not panic");
    });
}

#[test]
fn refuses_request_recovered_after_abrupt_goaway() {
    run(true, async {
        let (mut conn, server_io) = connect().await;
        let (ready, wait_ready) = oneshot::channel();
        let (shutdown, wait_shutdown) = oneshot::channel();
        let server = tokio::spawn(async move {
            let mut server = idle_server(server_io, ready, wait_shutdown).await;
            server.abrupt_shutdown(Reason::ENHANCE_YOUR_CALM);
            while let Some(Ok(_)) = server.accept().await {}
        });

        wait_ready.await.expect("server must signal readiness");
        let _pending_open = call(&mut conn, http_get());
        let response = send_request_or_refuse(&mut conn, http_get());
        shutdown.send(()).expect("server must await shutdown");

        let error = response.await.expect_err("request must be refused");
        assert_refused(&error);
        server.await.expect("server task must not panic");
    });
}

/// The error that hyper produces for a request whose connection is dropped
/// before it is written.
async fn canceled() -> hyper::Error {
    let (client_io, _server_io) = tokio::io::duplex(64 * 1024);
    let (builder, io) = Connect::<(), Body>::new((), ClientParams::default())
        .call(())
        .1
        .connected(Ok::<_, ()>((client_io, ())))
        .expect("transport must be kept");
    let (mut tx, conn) = builder
        .handshake(TokioIo::new(io))
        .await
        .expect("client handshake must succeed");
    let fut = tx.send_request(http_get());
    drop(tx);
    drop(conn);
    let error = fut.await.expect_err("request must be canceled");
    assert!(error.is_canceled(), "error must be canceled: {error:?}");
    error
}

/// The error of a sender whose connection is gone.
async fn closed() -> hyper::Error {
    let (client_io, _server_io) = tokio::io::duplex(64 * 1024);
    let (builder, io) = Connect::<(), Body>::new((), ClientParams::default())
        .call(())
        .1
        .connected(Ok::<_, ()>((client_io, ())))
        .expect("transport must be kept");
    let (mut tx, conn) = builder
        .handshake::<_, Body>(TokioIo::new(io))
        .await
        .expect("client handshake must succeed");
    drop(conn);
    let error = tx.ready().await.expect_err("sender must be closed");
    assert!(!error.is_canceled(), "error must not be canceled: {error:?}");
    error
}

#[test]
fn marks_only_cancelations_caused_by_goaway() {
    run(true, async {
        match mark_goaway_cancelation(canceled().await, true) {
            RequestError::GoAwayCanceled(error) => {
                assert!(error.source().is_canceled());
                assert!(error.into_source().is_canceled());
            }
            error => panic!("must be marked: {error:?}"),
        }
        for error in [
            mark_goaway_cancelation(canceled().await, false),
            mark_goaway_cancelation(closed().await, true),
            mark_goaway_cancelation(closed().await, false),
        ] {
            assert!(matches!(error, RequestError::Hyper(_)), "{error:?}");
        }
    });
}

#[test]
fn refuses_only_recovered_requests_after_goaway() {
    run(true, async {
        assert_refused(&refuse_recovered(true, true, canceled().await));
        for (recovered, goaway) in [(true, false), (false, true), (false, false)] {
            let error = refuse_recovered(recovered, goaway, canceled().await);
            assert_canceled_without_h2(&error, "the connection");
        }
    });
}

#[test]
fn clients_refuse_every_recovered_request() {
    run(true, async {
        assert_refused(&RequestError::refuse_or_preserve(true, canceled().await));
        let error = RequestError::refuse_or_preserve(false, canceled().await);
        assert_canceled_without_h2(&error, "the client");
    });
}

#[test]
fn a_marked_cancelation_says_what_canceled_it() {
    run(true, async {
        let error = GoAwayCanceled::new(canceled().await);
        assert_eq!(
            error.to_string(),
            "request canceled by the peer's GOAWAY: operation was canceled"
        );
    });
}

#[test]
fn marks_by_what_the_connection_task_recorded() {
    run(true, async {
        let (conn, _server_io) = connect().await;
        let mark = conn.mark_goaway_cancelations();
        assert!(matches!(mark(canceled().await), RequestError::Hyper(_)));

        let (mut conn, server_io) = connect().await;
        let (ready, wait_ready) = oneshot::channel();
        let (shutdown, wait_shutdown) = oneshot::channel();
        let server = tokio::spawn(async move {
            let mut server = idle_server(server_io, ready, wait_shutdown).await;
            server.graceful_shutdown();
            while let Some(Ok(_)) = server.accept().await {}
        });
        wait_ready.await.expect("server must signal readiness");
        let _pending_open = call(&mut conn, http_get());
        let mark = conn.mark_goaway_cancelations();
        let response = call(&mut conn, http_get()).map_err(mark);
        shutdown.send(()).expect("server must await shutdown");
        let error = response.await.expect_err("request must be canceled");
        assert!(
            matches!(error, RequestError::GoAwayCanceled(_)),
            "{error:?}"
        );
        server.await.expect("server task must not panic");
    });
}

/// A sender of a connection that nothing drives.
async fn sender() -> hyper::client::conn::http2::SendRequest<Body> {
    let (client_io, _server_io) = tokio::io::duplex(64 * 1024);
    let (builder, io) = Connect::<(), Body>::new((), ClientParams::default())
        .call(())
        .1
        .connected(Ok::<_, ()>((client_io, ())))
        .expect("transport must be kept");
    builder
        .handshake(TokioIo::new(io))
        .await
        .expect("client handshake must succeed")
        .0
}

#[test]
fn marks_from_the_end_of_its_own_connection_on() {
    run(true, async {
        let (a, a_task) = Connection::new(sender().await);
        let (b, b_task) = Connection::new(sender().await);
        let marks_a = a.mark_goaway_cancelations();
        let marks_b = b.mark_goaway_cancelations();
        assert!(matches!(marks_a(canceled().await), RequestError::Hyper(_)));
        assert!(matches!(marks_b(canceled().await), RequestError::Hyper(_)));

        assert_eq!(a_task.ended("a", &Ok(())), ("a", true));
        for mark in [&marks_a, &a.mark_goaway_cancelations()] {
            for _ in 0..2 {
                let error = mark(canceled().await);
                assert!(
                    matches!(error, RequestError::GoAwayCanceled(_)),
                    "{error:?}"
                );
            }
            assert!(matches!(mark(closed().await), RequestError::Hyper(_)));
        }
        assert!(matches!(marks_b(canceled().await), RequestError::Hyper(_)));

        assert_eq!(b_task.ended("b", &Err(vec![Cause::Other])), ("b", false));
        assert!(matches!(marks_b(canceled().await), RequestError::Hyper(_)));
    });
}

#[test]
fn attributes_the_end_of_a_connection() {
    let reason = H2Error::from(Reason::NO_ERROR);
    assert!(is_ended_by_peer(&Ok(())));
    assert!(!is_ended_by_peer(&Err(vec![])));
    assert!(!is_ended_by_peer(&Err(vec![Cause::Other, Cause::Other])));
    assert!(!is_ended_by_peer(&Err(vec![Cause::Other, Cause::H2(&reason)])));
}

#[test]
fn attributes_a_goaway_to_who_sent_it() {
    run(true, async {
        let (client_io, server_io) = tokio::io::duplex(64 * 1024);
        let (done, wait_done) = oneshot::channel::<()>();
        let server = tokio::spawn(async move {
            let mut server = h2::server::handshake(server_io)
                .await
                .expect("server handshake must succeed");
            server.abrupt_shutdown(Reason::INTERNAL_ERROR);
            while let Some(result) = server.accept().await {
                let error = result.expect_err("server must not accept a request");
                assert!(error.is_go_away());
                assert!(!is_ended_by_peer(&Err(vec![Cause::H2(&error)])));
            }
            wait_done.await.expect("client must signal completion");
        });
        let (tx, conn) = h2::client::handshake(client_io)
            .await
            .expect("client handshake must succeed");
        let _tx: h2::client::SendRequest<Bytes> = tx;
        let error = conn.await.expect_err("peer must send a GOAWAY");
        done.send(()).expect("server must await completion");
        assert!(
            is_ended_by_peer(&Err(vec![Cause::Other, Cause::H2(&error)])),
            "{error:?}"
        );
        let earlier = H2Error::from(Reason::CANCEL);
        assert!(!is_ended_by_peer(&Err(vec![
            Cause::H2(&earlier),
            Cause::H2(&error)
        ])));
        server.await.expect("server task must not panic");
    });
}

#[test]
fn finds_the_first_h2_cause() {
    let first = H2Error::from(Reason::CANCEL);
    let second = H2Error::from(Reason::PROTOCOL_ERROR);
    assert!(cause_ref(&[]).is_none());
    assert!(cause_ref(&[Cause::Other]).is_none());
    let found = cause_ref(&[
        Cause::Other,
        Cause::H2(&first),
        Cause::Other,
        Cause::H2(&second),
    ]);
    assert_eq!(found.and_then(|error| error.reason()), Some(Reason::CANCEL));
}

#[test]
fn a_transport_that_failed_ends_the_attempt() {
    let (_, handshake) = Connect::<(), Body>::new((), ClientParams::default()).call("target");
    assert_eq!(
        handshake.connected(Err::<((), ()), _>("refused")).err(),
        Some("refused")
    );
}

#[test]
fn a_connect_clones_its_parts() {
    let params = ClientParams {
        max_frame_size: Some(16_384),
        ..ClientParams::default()
    };
    let connect = Connect::<_, Body>::new(String::from("connect"), params);
    let copy = connect.clone();
    assert_eq!(copy.connect, "connect");
    assert_eq!(copy.params, params);
    let ((variant, target), handshake) = copy.call("target");
    assert_eq!((variant, target), (Variant::H2, "target"));
    assert_eq!(handshake.params, params);
}
