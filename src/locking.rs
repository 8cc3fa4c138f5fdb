//! The decisions that the engine's locking callbacks make.
use vstd::prelude::*;

verus! {

/// The bit of a locking callback's mode that asks for the lock to be taken.
pub const CRYPTO_LOCK: i32 = 1;

/// What a locking callback is asked to do with its mutex.
#[derive(Clone, Copy, Debug, PartialEq, Eq, Structural)]
pub enum LockRequest {
    Acquire,
    Release,
}

/// The request that a locking callback's `mode` carries.
pub open spec fn request_of(mode: i32) -> LockRequest {
    if mode & CRYPTO_LOCK != 0 {
        LockRequest::Acquire
    } else {
        LockRequest::Release
    }
}

/// Reads the request out of a locking callback's `mode`.
pub fn lock_request(mode: i32) -> (r: LockRequest)
    ensures
        r == request_of(mode),
{
    if mode & CRYPTO_LOCK != 0 {
        LockRequest::Acquire
    } else {
        LockRequest::Release
    }
}

/// The slot of the static lock table that the engine's index `n` names, in a
/// table of `count` locks; `None` where the index lies outside the table.
pub fn lock_slot(n: i32, count: usize) -> (r: Option<usize>)
    ensures
        r is Some <==> 0 <= n < count,
        r is Some ==> r->0 == n,
{
    if n < 0 {
        None
    } else if (n as usize) < count {
        Some(n as usize)
    } else {
        None
    }
}

} // verus!
