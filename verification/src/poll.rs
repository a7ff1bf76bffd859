//! The result of advancing a cooperative, non-blocking state machine: either
//! a finished value or a signal that the caller must poll again later.

use vstd::prelude::*;

verus! {

/// Outcome of one poll of a non-blocking operation.
///
/// `Ready(v)` carries the finished value; `Pending` means no progress could
/// be made yet and the caller must poll again later. Suspension happens only
/// at poll boundaries; nothing here blocks.
#[derive(Debug)]
pub enum Poll<T> {
    Ready(T),
    Pending,
}

} // verus!
