//! A request body that wraps exactly one unit of data and can be duplicated
//! while that unit is still present, so retry middleware can resend a request
//! whose original body was already consumed on the wire.

use vstd::prelude::*;

use crate::poll::Poll;
use crate::transport::transport_body_view;

verus! {

/// A contract violation on a [`Body`], reported as a typed error rather than
/// an abrupt abort.
#[derive(Debug, PartialEq, Eq, Structural)]
pub enum BodyError {
    /// The body's single unit of data was already taken out, so the body can
    /// no longer be turned into a transport-native body.
    AlreadyConsumed,
}

/// A request body holding at most one unit of data.
///
/// It is built from exactly one unit; the first poll for data delivers that
/// unit and leaves the body permanently empty, so no unit is ever delivered
/// twice. While the unit is still present, the body can be duplicated.
#[derive(Debug)]
pub struct Body {
    body: Option<Vec<u8>>,
}

impl View for Body {
    type V = Option<Seq<u8>>;

    closed spec fn view(&self) -> Option<Seq<u8>> {
        data_view(self.body)
    }
}

/// The sequence of bytes held by an optional unit of data.
pub open spec fn data_view(d: Option<Vec<u8>>) -> Option<Seq<u8>> {
    match d {
        Some(v) => Some(v@),
        None => None,
    }
}

/// The abstract state of a body built from one unit of data: it is full.
pub open spec fn spec_from(unit: Seq<u8>) -> Option<Seq<u8>> {
    Some(unit)
}

/// One poll for data, on the abstract state: the pair of the state after the
/// poll (always empty) and the data the poll yields (the stored unit, if any).
pub open spec fn spec_poll_data(b: Option<Seq<u8>>) -> (Option<Seq<u8>>, Option<Seq<u8>>) {
    (None, b)
}

/// Duplication, on the abstract state: a full body yields an equally full
/// duplicate; a consumed body yields no duplicate.
pub open spec fn spec_try_clone(b: Option<Seq<u8>>) -> Option<Option<Seq<u8>>> {
    match b {
        Some(unit) => Some(Some(unit)),
        None => None,
    }
}

impl Body {
    /// Wraps one unit of data; the new body starts full.
    pub fn from(unit: Vec<u8>) -> (b: Body)
        ensures
            b@ == spec_from(unit@),
    {
        Body { body: Some(unit) }
    }

    /// Polls for the next unit of data. The first poll yields the wrapped
    /// unit and empties the body; every later poll yields end of stream.
    /// This body performs no I/O, so the poll is always ready.
    pub fn poll_data(&mut self) -> (r: Poll<Option<Vec<u8>>>)
        ensures
            final(self)@ == spec_poll_data(old(self)@).0,
            (r matches Poll::Ready(d) && data_view(d) == spec_poll_data(old(self)@).1),
    {
        Poll::Ready(self.body.take())
    }

    /// Polls for trailing headers. Trailers are out of scope for this body,
    /// so the answer is always "no trailers", whether or not the data unit
    /// was already consumed.
    pub fn poll_trailers(&mut self) -> (r: Poll<Option<http::HeaderMap>>)
        ensures
            final(self)@ == old(self)@,
            (r matches Poll::Ready(d) && d is None),
    {
        Poll::Ready(None)
    }

    /// Converts this body into the transport-native body holding the same
    /// unit of data. A body whose unit was already consumed cannot be
    /// converted; that contract violation is a typed error, never an abort.
    pub fn into(self) -> (r: Result<http_body::Full<bytes::Bytes>, BodyError>)
        ensures
            (match self@ {
                Some(unit) => r matches Ok(t) && transport_body_view(t) == unit,
                None => r == Err::<http_body::Full<bytes::Bytes>, BodyError>(
                    BodyError::AlreadyConsumed,
                ),
            }),
    {
        match self.body {
            Some(data) => Ok(crate::transport::transport_body_from(data)),
            None => Err(BodyError::AlreadyConsumed),
        }
    }

    /// Duplicates this body. While the unit is still present the duplicate
    /// holds an equal unit and is fully independent of the original; once the
    /// unit was consumed there is nothing left to duplicate.
    pub fn try_clone(&self) -> (r: Option<Body>)
        ensures
            (match spec_try_clone(self@) {
                Some(bv) => r matches Some(b) && b@ == bv,
                None => r is None,
            }),
    {
        match &self.body {
            Some(data) => {
                let copy = data.clone();
                proof {
                    assert(copy@ =~= data@);
                }
                Some(Body { body: Some(copy) })
            },
            None => None,
        }
    }
}

/// Law: a body built from one unit of data yields exactly that unit on the
/// first poll for data, and every poll made after any poll yields end of
/// stream, so no unit is ever delivered twice.
pub proof fn lemma_single_delivery(unit: Seq<u8>)
    ensures
        spec_poll_data(spec_from(unit)) == (Option::<Seq<u8>>::None, Some(unit)),
        forall|b: Option<Seq<u8>>|
            #![trigger spec_poll_data(b)]
            spec_poll_data(spec_poll_data(b).0).1 is None,
{
}

/// Law: duplicating a body that still holds its unit yields a duplicate
/// holding an equal unit; duplicating an already-consumed body yields
/// "cannot duplicate".
pub proof fn lemma_duplicate(unit: Seq<u8>)
    ensures
        spec_try_clone(spec_from(unit)) == Some(Some(unit)),
        spec_try_clone(Option::<Seq<u8>>::None) is None,
{
}

} // verus!
