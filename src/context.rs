//! The configuration object that sessions are made from, and the bridge that
//! carries a user's verification callback to the engine's verification.
use vstd::prelude::*;
use crate::x509::X509StoreContext;

verus! {

/// The protocol versions that a context supports.
#[derive(Clone, Copy, Debug, PartialEq, Eq, Hash, Structural)]
pub enum SslMethod {
    /// Only the SSLv3 protocol.
    Sslv3,
    /// Only the TLSv1 protocol.
    Tlsv1,
    /// The SSLv2, SSLv3 and TLSv1 protocols.
    Sslv23,
}

/// The kind of certificate verification used.
#[derive(Clone, Copy, Debug, PartialEq, Eq, Structural)]
pub enum SslVerifyMode {
    /// Verify that the peer's certificate is trusted.
    SslVerifyPeer,
    /// Do not verify the peer's certificate.
    SslVerifyNone,
}

impl SslVerifyMode {
    /// The engine's value for this mode.
    pub fn raw(&self) -> (r: i32)
        ensures
            *self == SslVerifyMode::SslVerifyPeer ==> r == 1,
            *self == SslVerifyMode::SslVerifyNone ==> r == 0,
    {
        match self {
            SslVerifyMode::SslVerifyPeer => 1,
            SslVerifyMode::SslVerifyNone => 0,
        }
    }
}

/// Options that can be set on a context.
#[derive(Clone, Copy, Debug, PartialEq, Eq, Structural)]
pub enum SslOption {
    /// Allow renegotiation with peers that lack secure renegotiation.
    LegacyRenegotiation,
}

impl SslOption {
    /// The engine's bit for this option.
    pub fn bits(&self) -> (r: i64)
        ensures
            *self == SslOption::LegacyRenegotiation ==> r == 0x4000,
    {
        match self {
            SslOption::LegacyRenegotiation => 0x4000,
        }
    }
}

/// A context's configuration: the protocol versions, the verification mode
/// and the verification callback, of type `F`, that every session made
/// from it shares.
pub struct SslContext<F> {
    method: SslMethod,
    verify_mode: SslVerifyMode,
    verify: Option<F>,
}

impl<F> SslContext<F> {
    pub closed spec fn spec_method(&self) -> SslMethod {
        self.method
    }

    pub closed spec fn spec_verify_mode(&self) -> SslVerifyMode {
        self.verify_mode
    }

    /// The verification callback, if one is set.
    pub closed spec fn callback(&self) -> Option<F> {
        self.verify
    }

    /// A context for `method`, which verifies nothing and has no callback.
    pub fn new(method: SslMethod) -> (r: SslContext<F>)
        ensures
            r.spec_method() == method,
            r.spec_verify_mode() == SslVerifyMode::SslVerifyNone,
            r.callback() is None,
    {
        SslContext { method, verify_mode: SslVerifyMode::SslVerifyNone, verify: None }
    }

    /// Sets the verification mode and the callback for new connections.
    pub fn set_verify(&mut self, mode: SslVerifyMode, verify: Option<F>)
        ensures
            final(self).spec_method() == old(self).spec_method(),
            final(self).spec_verify_mode() == mode,
            final(self).callback() == verify,
    {
        self.verify_mode = mode;
        self.verify = verify;
    }

    pub fn method(&self) -> (r: SslMethod)
        ensures
            r == self.spec_method(),
    {
        self.method
    }

    pub fn verify_mode(&self) -> (r: SslVerifyMode)
        ensures
            r == self.spec_verify_mode(),
    {
        self.verify_mode
    }
}

impl<F: Fn(bool, &X509StoreContext) -> bool> SslContext<F> {
    /// The verdict that goes back to the engine for one certificate, given
    /// the engine's own verdict `preverify_ok` (non-zero for success): with
    /// no callback the engine's verdict stands; with one, its answer
    /// decides, 1 to go on with the handshake and 0 to abort it.
    pub fn verify_certificate(&self, preverify_ok: i32, ctx: &X509StoreContext) -> (r: i32)
        requires
            self.callback() is Some ==> call_requires(self.callback()->0, (preverify_ok != 0, ctx)),
        ensures
            self.callback() is None ==> r == preverify_ok,
            self.callback() is Some ==> (r == 0 || r == 1)
                && call_ensures(self.callback()->0, (preverify_ok != 0, ctx), r == 1),
    {
        match &self.verify {
            None => preverify_ok,
            Some(verify) => if verify(preverify_ok != 0, ctx) {
                1
            } else {
                0
            },
        }
    }
}

} // verus!
