//! An adapter that exposes one established HTTP/1.1 client connection as two
//! independently advancing poll-based state machines: readiness of the sender
//! handle ("may the next request be submitted?") and driving of the
//! connection handle ("keep in-flight reads, writes and keep-alive machinery
//! progressing"), plus the call operation that submits a request.

use vstd::prelude::*;

use crate::poll::Poll;
use crate::transport::driver_poll;
use crate::transport::error_is_incomplete_close;
use crate::transport::incomplete_close;
use crate::transport::Driver;
use crate::transport::sender_poll_ready;
use crate::transport::sender_send_request;
use crate::transport::ResponseHandle;

verus! {

/// A contract violation of the call discipline, reported as a typed error
/// rather than an undefined outcome inherited from the sender handle.
#[derive(Debug, PartialEq, Eq, Structural)]
pub enum CallError {
    /// `call` was invoked although no readiness poll had returned ready since
    /// the last accepted call.
    NotReady,
}

/// The explicit outcome of the unimplemented graceful shutdown, reported as a
/// typed error rather than an abrupt abort.
#[derive(Debug, PartialEq, Eq, Structural)]
pub enum CloseError {
    /// Graceful shutdown is deliberately unsupported; polling for close never
    /// silently reports success.
    Unsupported,
}

/// Whether readiness has been observed since the last accepted call, on the
/// abstract state: an accepted call clears it, a transport readiness signal
/// sets it.
pub open spec fn spec_observe_ready(ready: bool, transport_ready: bool) -> bool {
    ready || transport_ready
}

/// One call, on the abstract state: the pair of the readiness after the call
/// (always cleared) and whether the call was accepted (exactly when readiness
/// had been observed).
pub open spec fn spec_call(ready: bool) -> (bool, bool) {
    (false, ready)
}

/// True when one poll finished and brought success.
pub open spec fn poll_ok<E>(r: Poll<Result<(), E>>) -> bool {
    &&& r matches Poll::Ready(res)
    &&& res is Ok
}

/// What one finished poll of the driver means for the connection. The
/// driver's own completion is the connection's completion, reported as such.
/// A failure saying the close truncated a message, on a connection that never
/// carried an accepted call, is the peer closing a connection with no work in
/// flight — its natural finish, reported as completion, never as an error.
/// Any other failure is surfaced verbatim, with no retry or recovery.
pub fn settle_driver_outcome(used: bool, res: Result<(), hyper::Error>) -> (r: Poll<
    Result<(), hyper::Error>,
>)
    ensures
        r is Ready,
        res is Ok ==> r == Poll::Ready(Result::<(), hyper::Error>::Ok(())),
        (match res {
            Err(e) => if !used && incomplete_close(e) {
                r == Poll::Ready(Result::<(), hyper::Error>::Ok(()))
            } else {
                r == Poll::Ready(Result::<(), hyper::Error>::Err(e))
            },
            Ok(_) => true,
        }),
{
    match res {
        Ok(u) => Poll::Ready(Ok(u)),
        Err(e) => {
            if !used && error_is_incomplete_close(&e) {
                Poll::Ready(Ok(()))
            } else {
                Poll::Ready(Err(e))
            }
        },
    }
}

/// One established HTTP/1.1 client connection, exposed to a middleware stack.
///
/// It owns the paired sender and driver handles produced together when a
/// duplex byte stream was promoted to an HTTP/1.1 client connection; the two
/// are never separated, and exactly one caller advances both. Beside the
/// handles it tracks whether readiness has been observed since the last
/// accepted call, so that submitting a request without observed readiness is
/// a typed error instead of an outcome inherited from the sender handle, and
/// whether the driver has finished, so that a finished connection keeps
/// reporting completion without its driver ever being polled again.
pub struct ConnectionAdapter {
    sender: hyper::client::conn::SendRequest<http_body::Full<bytes::Bytes>>,
    driver: Driver,
    ready: bool,
    used: bool,
    done: bool,
}

impl ConnectionAdapter {
    /// Whether a readiness poll has returned ready since the last accepted
    /// call, so that the next call will be accepted.
    pub closed spec fn is_ready(&self) -> bool {
        self.ready
    }

    /// Whether this connection has ever carried an accepted call. A transport
    /// close before that is the connection's natural completion, not a
    /// truncated message.
    pub closed spec fn was_used(&self) -> bool {
        self.used
    }

    /// Whether the driver has finished, by natural completion or by a
    /// surfaced failure. A finished connection keeps reporting completion and
    /// its driver is never polled again.
    pub closed spec fn is_complete(&self) -> bool {
        self.done
    }

    /// The sender handle this adapter holds.
    pub closed spec fn sender_handle(&self) -> hyper::client::conn::SendRequest<
        http_body::Full<bytes::Bytes>,
    > {
        self.sender
    }

    /// The driver handle this adapter holds.
    pub closed spec fn driver_handle(&self) -> Driver {
        self.driver
    }

    /// Pairs the two handles of one freshly established connection: the new
    /// adapter holds exactly the given sender and driver, and they are never
    /// reassigned to another underlying connection afterwards — the methods
    /// below only advance them in place. No readiness has been observed yet,
    /// so a call is not yet accepted, and no work has finished.
    pub fn new(
        sender: hyper::client::conn::SendRequest<http_body::Full<bytes::Bytes>>,
        driver: Driver,
    ) -> (c: Self)
        ensures
            !c.is_ready(),
            !c.was_used(),
            !c.is_complete(),
            c.sender_handle() == sender,
            c.driver_handle() == driver,
    {
        ConnectionAdapter { sender, driver, ready: false, used: false, done: false }
    }

    /// Polls whether the next request may be submitted. Once readiness was
    /// observed it is remembered until the next accepted call; until then the
    /// sender handle is polled and its answer — ready, pending, or a
    /// transport error surfaced verbatim — is returned unchanged, so the
    /// adapter reports ready only when the transport itself signalled
    /// availability.
    pub fn poll_ready(&mut self, cx: &mut core::task::Context<'_>) -> (r: Poll<
        Result<(), hyper::Error>,
    >)
        ensures
            final(self).is_ready() == spec_observe_ready(old(self).is_ready(), poll_ok(r)),
            old(self).is_ready() ==> poll_ok(r) && *final(self) == *old(self),
            final(self).was_used() == old(self).was_used(),
            final(self).is_complete() == old(self).is_complete(),
            final(self).driver_handle() == old(self).driver_handle(),
    {
        if self.ready {
            return Poll::Ready(Ok(()));
        }
        match sender_poll_ready(&mut self.sender, cx) {
            Poll::Ready(res) => {
                match res {
                    Ok(u) => {
                        self.ready = true;
                        Poll::Ready(Ok(u))
                    },
                    Err(e) => Poll::Ready(Err(e)),
                }
            },
            Poll::Pending => Poll::Pending,
        }
    }

    /// Polls the connection's background work: in-flight reads and writes and
    /// keep-alive machinery, independent of whether a request is being
    /// submitted. It finishes with ready when the connection has naturally
    /// completed and surfaces transport errors verbatim; what each finished
    /// driver outcome becomes is pinned by [`settle_driver_outcome`], which
    /// reports the close of a connection that never carried a call as
    /// completion, never as a truncated message. Any finished poll — natural
    /// completion or a surfaced failure — ends the background work for good:
    /// from then on this reports completion without polling the driver again.
    /// Polling never changes whether a call is accepted.
    pub fn poll_service(&mut self, cx: &mut core::task::Context<'_>) -> (r: Poll<
        Result<(), hyper::Error>,
    >)
        ensures
            final(self).is_ready() == old(self).is_ready(),
            final(self).was_used() == old(self).was_used(),
            final(self).sender_handle() == old(self).sender_handle(),
            final(self).is_complete() == (old(self).is_complete() || r is Ready),
            old(self).is_complete() ==> r == Poll::Ready(Result::<(), hyper::Error>::Ok(()))
                && *final(self) == *old(self),
            (match r {
                Poll::Ready(Err(e)) => old(self).was_used() || !incomplete_close(e),
                _ => true,
            }),
    {
        if self.done {
            return Poll::Ready(Ok(()));
        }
        match driver_poll(&mut self.driver, cx) {
            Poll::Ready(res) => {
                self.done = true;
                settle_driver_outcome(self.used, res)
            },
            Poll::Pending => Poll::Pending,
        }
    }

    /// Polls for graceful shutdown. Graceful shutdown is deliberately
    /// unsupported, so this always yields the typed failure, never a silent
    /// success, and leaves the adapter unchanged.
    pub fn poll_close(&mut self) -> (r: Poll<Result<(), CloseError>>)
        ensures
            r matches Poll::Ready(res) && res == Err::<(), CloseError>(CloseError::Unsupported),
            *final(self) == *old(self),
    {
        Poll::Ready(Err(CloseError::Unsupported))
    }

    /// Submits one request on the sender handle. The call is accepted exactly
    /// when readiness has been observed since the last accepted call; an
    /// accepted call returns the response future and clears the observed
    /// readiness, so no second call is accepted until readiness is observed
    /// again. A call without observed readiness is rejected with a typed
    /// error and leaves the adapter unchanged.
    pub fn call(&mut self, req: http::Request<http_body::Full<bytes::Bytes>>) -> (r: Result<
        ResponseHandle,
        CallError,
    >)
        ensures
            final(self).is_ready() == spec_call(old(self).is_ready()).0,
            (r is Ok) == spec_call(old(self).is_ready()).1,
            final(self).was_used() == (old(self).was_used() || r is Ok),
            final(self).is_complete() == old(self).is_complete(),
            final(self).driver_handle() == old(self).driver_handle(),
            !old(self).is_ready() ==> r == Err::<ResponseHandle, CallError>(CallError::NotReady)
                && *final(self) == *old(self),
    {
        if !self.ready {
            return Err(CallError::NotReady);
        }
        self.ready = false;
        self.used = true;
        Ok(sender_send_request(&mut self.sender, req))
    }
}

/// Law: an accepted call clears the observed readiness, and after it the
/// adapter observes readiness again exactly when the underlying transport
/// independently signals it — one request in flight per readiness cycle.
pub proof fn lemma_single_in_flight()
    ensures
        !spec_call(true).0,
        forall|transport_ready: bool|
            spec_observe_ready(spec_call(true).0, transport_ready) == transport_ready,
{
}

} // verus!
