//! Declarations of the transport library's types and thin trusted wrappers
//! around the calls the library makes into it. Verus believes the contracts
//! stated here; each rests on what the transport library's own source and
//! documentation promise, and on nothing more.

use vstd::prelude::*;

use crate::poll::Poll;

verus! {

/// The transport library's opaque error type, surfaced verbatim by the
/// polling operations.
#[verifier::external_type_specification]
#[verifier::external_body]
pub struct ExHyperError(hyper::Error);

/// A contiguous chunk of bytes, the data unit of the transport-native body.
#[verifier::external_type_specification]
#[verifier::external_body]
pub struct ExBytes(bytes::Bytes);

/// The transport-native request body holding at most one chunk of data.
#[verifier::external_type_specification]
#[verifier::external_body]
#[verifier::reject_recursive_types(D)]
pub struct ExFull<D>(http_body::Full<D>);

/// The value of one header field.
#[verifier::external_type_specification]
#[verifier::external_body]
pub struct ExHeaderValue(http::header::HeaderValue);

/// The map of trailing headers carried by a message.
#[verifier::external_type_specification]
#[verifier::external_body]
#[verifier::reject_recursive_types(T)]
pub struct ExHeaderMap<T>(http::HeaderMap<T>);

/// The context handed to every poll, carrying the waker that reschedules the
/// polling task.
#[verifier::external_type_specification]
#[verifier::external_body]
pub struct ExContext<'a>(core::task::Context<'a>);

/// The sender handle of an HTTP/1.1 client connection: it submits requests.
#[verifier::external_type_specification]
#[verifier::external_body]
#[verifier::reject_recursive_types(B)]
pub struct ExSendRequest<B>(hyper::client::conn::SendRequest<B>);

/// The driver handle of an HTTP/1.1 client connection, with its transport
/// type erased: polling it pumps the connection's background reads, writes
/// and keep-alive machinery. It is built by pinning and fusing the connection
/// future that hyper's handshake returns beside the sender handle; the field
/// stays visible so unverified callers can do so. The fuse matters: hyper's
/// connection future gives up its state when it completes, so only a fused
/// handle can be polled again afterwards without aborting.
#[verifier::external_body]
pub struct Driver(
    pub futures::future::Fuse<
        core::pin::Pin<
            std::boxed::Box<
                dyn core::future::Future<Output = Result<(), hyper::Error>> + core::marker::Send,
            >,
        >,
    >,
);

/// The future resolving to the response of one submitted request, carried
/// opaquely: nothing about the response is modeled here, the owner of the
/// handle awaits it. The field stays visible so unverified callers can drive
/// the future.
#[verifier::external_body]
pub struct ResponseHandle(pub hyper::client::conn::ResponseFuture);

/// An HTTP request, parameterized by its body type.
#[verifier::external_type_specification]
#[verifier::external_body]
#[verifier::reject_recursive_types(T)]
pub struct ExRequest<T>(http::Request<T>);

/// The bytes that a transport-native body holds and will yield as its one
/// chunk of data.
pub uninterp spec fn transport_body_view(b: http_body::Full<bytes::Bytes>) -> Seq<u8>;

/// Relies on `http_body::Full::new` and `bytes::Bytes::from(Vec<u8>)`: the
/// transport-native single-chunk body built this way holds exactly the given
/// bytes.
#[verifier::external_body]
pub(crate) fn transport_body_from(data: Vec<u8>) -> (r: http_body::Full<bytes::Bytes>)
    ensures
        transport_body_view(r) == data@,
{
    http_body::Full::new(bytes::Bytes::from(data))
}

/// Whether a transport error says that the connection closed before a
/// message completed. `hyper::Error::is_incomplete_message` is a pure
/// function of the error value, so its result deserves a name that contracts
/// can mention.
pub uninterp spec fn incomplete_close(e: hyper::Error) -> bool;

/// Relies on hyper's `Error::is_incomplete_message`: true exactly for the
/// error raised when the connection closed before a message completed, and a
/// function of the error value alone.
#[verifier::external_body]
pub(crate) fn error_is_incomplete_close(e: &hyper::Error) -> (r: bool)
    ensures
        r == incomplete_close(*e),
{
    e.is_incomplete_message()
}

/// Relies on hyper's `SendRequest::poll_ready`: ready means the sender can
/// take the next request; pending means it cannot yet and the task was
/// scheduled for wakeup; an error is the transport's own, surfaced verbatim.
/// Which of the three comes back depends on what is on the wire, so nothing
/// is promised of the outcome; the caller handles every one.
#[verifier::external_body]
pub(crate) fn sender_poll_ready(
    s: &mut hyper::client::conn::SendRequest<http_body::Full<bytes::Bytes>>,
    cx: &mut core::task::Context<'_>,
) -> (r: Poll<Result<(), hyper::Error>>) {
    match s.poll_ready(cx) {
        core::task::Poll::Ready(Ok(())) => Poll::Ready(Ok(())),
        core::task::Poll::Ready(Err(e)) => Poll::Ready(Err(e)),
        core::task::Poll::Pending => Poll::Pending,
    }
}

/// Relies on hyper's `Connection` being a future, polled through the fused,
/// type-erased driver handle: polling advances the connection's background
/// I/O; it finishes with ready when the connection has naturally completed,
/// and with an error of the transport's own, surfaced verbatim, when the
/// connection fails. Which comes back depends on what is on the wire, so
/// nothing is promised of the outcome. Relies on futures' `Fuse::poll` for
/// totality: a terminated fuse yields pending and never polls the connection
/// future again, which would abort once it has given up its state.
#[verifier::external_body]
pub(crate) fn driver_poll(d: &mut Driver, cx: &mut core::task::Context<'_>) -> (r: Poll<
    Result<(), hyper::Error>,
>) {
    match core::future::Future::poll(core::pin::Pin::new(&mut d.0), cx) {
        core::task::Poll::Ready(Ok(())) => Poll::Ready(Ok(())),
        core::task::Poll::Ready(Err(e)) => Poll::Ready(Err(e)),
        core::task::Poll::Pending => Poll::Pending,
    }
}

/// Relies on hyper's `SendRequest::send_request`: it submits the request on
/// this sender and returns the future resolving to the response. The future's
/// outcome depends on the peer, so nothing is promised of it.
#[verifier::external_body]
pub(crate) fn sender_send_request(
    s: &mut hyper::client::conn::SendRequest<http_body::Full<bytes::Bytes>>,
    req: http::Request<http_body::Full<bytes::Bytes>>,
) -> (r: ResponseHandle) {
    ResponseHandle(s.send_request(req))
}

} // verus!
