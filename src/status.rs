//! The engine's status codes and their classification into retry outcomes.
use vstd::prelude::*;

verus! {

/// The engine reported no error.
pub const SSL_ERROR_NONE: i32 = 0;
/// A failure in the protocol library; details are on the engine's error queue.
pub const SSL_ERROR_SSL: i32 = 1;
/// The operation needs more ciphertext from the peer.
pub const SSL_ERROR_WANT_READ: i32 = 2;
/// The operation needs pending ciphertext to be sent to the peer.
pub const SSL_ERROR_WANT_WRITE: i32 = 3;
/// The operation waits for a certificate lookup callback.
pub const SSL_ERROR_WANT_X509_LOOKUP: i32 = 4;
/// A failure reported by the system below the engine.
pub const SSL_ERROR_SYSCALL: i32 = 5;
/// The peer closed the session cleanly.
pub const SSL_ERROR_ZERO_RETURN: i32 = 6;
/// The connect operation did not complete.
pub const SSL_ERROR_WANT_CONNECT: i32 = 7;
/// The accept operation did not complete.
pub const SSL_ERROR_WANT_ACCEPT: i32 = 8;

/// The error kinds that the engine's `get_error` reports.
#[derive(Clone, Copy, Debug, PartialEq, Eq, Structural)]
pub enum LibSslError {
    ErrorNone,
    ErrorSsl,
    ErrorWantRead,
    ErrorWantWrite,
    ErrorWantX509Lookup,
    ErrorSyscall,
    ErrorZeroReturn,
    ErrorWantConnect,
    ErrorWantAccept,
}

pub open spec fn lib_error_of(code: i32) -> Option<LibSslError> {
    if code == SSL_ERROR_NONE {
        Some(LibSslError::ErrorNone)
    } else if code == SSL_ERROR_SSL {
        Some(LibSslError::ErrorSsl)
    } else if code == SSL_ERROR_WANT_READ {
        Some(LibSslError::ErrorWantRead)
    } else if code == SSL_ERROR_WANT_WRITE {
        Some(LibSslError::ErrorWantWrite)
    } else if code == SSL_ERROR_WANT_X509_LOOKUP {
        Some(LibSslError::ErrorWantX509Lookup)
    } else if code == SSL_ERROR_SYSCALL {
        Some(LibSslError::ErrorSyscall)
    } else if code == SSL_ERROR_ZERO_RETURN {
        Some(LibSslError::ErrorZeroReturn)
    } else if code == SSL_ERROR_WANT_CONNECT {
        Some(LibSslError::ErrorWantConnect)
    } else if code == SSL_ERROR_WANT_ACCEPT {
        Some(LibSslError::ErrorWantAccept)
    } else {
        None
    }
}

impl LibSslError {
    /// The error kind for a raw code of the engine; `None` for a code that
    /// the engine does not define.
    pub fn from_code(code: i32) -> (r: Option<LibSslError>)
        ensures
            r == lib_error_of(code),
    {
        match code {
            SSL_ERROR_NONE => Some(LibSslError::ErrorNone),
            SSL_ERROR_SSL => Some(LibSslError::ErrorSsl),
            SSL_ERROR_WANT_READ => Some(LibSslError::ErrorWantRead),
            SSL_ERROR_WANT_WRITE => Some(LibSslError::ErrorWantWrite),
            SSL_ERROR_WANT_X509_LOOKUP => Some(LibSslError::ErrorWantX509Lookup),
            SSL_ERROR_SYSCALL => Some(LibSslError::ErrorSyscall),
            SSL_ERROR_ZERO_RETURN => Some(LibSslError::ErrorZeroReturn),
            SSL_ERROR_WANT_CONNECT => Some(LibSslError::ErrorWantConnect),
            SSL_ERROR_WANT_ACCEPT => Some(LibSslError::ErrorWantAccept),
            _ => None,
        }
    }
}

/// What one attempt of an engine operation amounts to.
#[derive(Clone, Copy, Debug, PartialEq, Eq, Structural)]
pub enum EngineStatus {
    /// The operation made progress: bytes transferred, or the handshake done.
    Progress(usize),
    /// The engine needs more ciphertext from the transport.
    WantInput,
    /// The engine needs its pending ciphertext sent to the transport.
    WantOutput,
    /// The peer closed the session cleanly.
    Closed,
    /// Any other outcome: a protocol failure, whose details are on the
    /// engine's error queue.
    Failed,
}

/// The classification of a return value `ret` of an engine operation, with
/// `code` the error kind that the engine reports for it. A positive return
/// value is progress, whatever the code.
pub open spec fn status_of(ret: i32, code: i32) -> EngineStatus {
    if ret > 0 {
        EngineStatus::Progress(ret as usize)
    } else if code == SSL_ERROR_WANT_READ {
        EngineStatus::WantInput
    } else if code == SSL_ERROR_WANT_WRITE {
        EngineStatus::WantOutput
    } else if code == SSL_ERROR_ZERO_RETURN {
        EngineStatus::Closed
    } else {
        EngineStatus::Failed
    }
}

/// Classifies the return value of an engine operation.
pub fn classify(ret: i32, code: i32) -> (r: EngineStatus)
    ensures
        r == status_of(ret, code),
{
    if ret > 0 {
        return EngineStatus::Progress(ret as usize);
    }
    match LibSslError::from_code(code) {
        Some(LibSslError::ErrorWantRead) => EngineStatus::WantInput,
        Some(LibSslError::ErrorWantWrite) => EngineStatus::WantOutput,
        Some(LibSslError::ErrorZeroReturn) => EngineStatus::Closed,
        _ => EngineStatus::Failed,
    }
}

/// The number of bytes that a read from a memory buffer returned, or `None`
/// where its return value says that nothing is buffered.
pub open spec fn buffered_len(ret: i32) -> Option<usize> {
    if ret < 0 {
        None
    } else {
        Some(ret as usize)
    }
}

/// Reads the return value of a memory buffer read.
pub fn drained_len(ret: i32) -> (r: Option<usize>)
    ensures
        r == buffered_len(ret),
{
    if ret < 0 {
        None
    } else {
        Some(ret as usize)
    }
}

} // verus!
