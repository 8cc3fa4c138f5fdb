use ssl::cipher::SslCipher;
use ssl::context::{SslContext, SslMethod, SslOption, SslVerifyMode};
use ssl::locking::{lock_request, lock_slot, LockRequest};
use ssl::status::{classify, drained_len, EngineStatus, LibSslError};
use ssl::x509::{X509Name, X509NameFormat, X509StoreContext, X509ValidationError, X509};

type Callback = fn(bool, &X509StoreContext) -> bool;

fn accept_all(_ok: bool, _ctx: &X509StoreContext) -> bool {
    true
}

fn reject_all(_ok: bool, _ctx: &X509StoreContext) -> bool {
    false
}

fn reject_expired(ok: bool, ctx: &X509StoreContext) -> bool {
    ok && ctx.get_error() != Some(X509ValidationError::X509CertHasExpired)
}

fn store(error: i32) -> X509StoreContext {
    X509StoreContext::new(error, Some(X509::new(X509Name::new("CN=example".to_string()))))
}

#[test]
fn classify_positive_is_progress() {
    assert_eq!(classify(1, 0), EngineStatus::Progress(1));
    assert_eq!(classify(16384, 2), EngineStatus::Progress(16384));
}

#[test]
fn classify_retry_and_terminal_codes() {
    assert_eq!(classify(-1, 2), EngineStatus::WantInput);
    assert_eq!(classify(-1, 3), EngineStatus::WantOutput);
    assert_eq!(classify(0, 6), EngineStatus::Closed);
    assert_eq!(classify(-1, 1), EngineStatus::Failed);
    assert_eq!(classify(0, 5), EngineStatus::Failed);
    assert_eq!(classify(-1, 99), EngineStatus::Failed);
}

#[test]
fn lib_error_codes() {
    assert_eq!(LibSslError::from_code(0), Some(LibSslError::ErrorNone));
    assert_eq!(LibSslError::from_code(2), Some(LibSslError::ErrorWantRead));
    assert_eq!(LibSslError::from_code(6), Some(LibSslError::ErrorZeroReturn));
    assert_eq!(LibSslError::from_code(8), Some(LibSslError::ErrorWantAccept));
    assert_eq!(LibSslError::from_code(9), None);
    assert_eq!(LibSslError::from_code(-1), None);
}

#[test]
fn memory_buffer_read_results() {
    assert_eq!(drained_len(-1), None);
    assert_eq!(drained_len(0), Some(0));
    assert_eq!(drained_len(512), Some(512));
}

#[test]
fn locking_mode_and_slots() {
    assert_eq!(lock_request(1), LockRequest::Acquire);
    assert_eq!(lock_request(5), LockRequest::Acquire);
    assert_eq!(lock_request(2), LockRequest::Release);
    assert_eq!(lock_request(0), LockRequest::Release);
    assert_eq!(lock_slot(0, 41), Some(0));
    assert_eq!(lock_slot(40, 41), Some(40));
    assert_eq!(lock_slot(41, 41), None);
    assert_eq!(lock_slot(-1, 41), None);
}

#[test]
fn validation_error_codes() {
    assert_eq!(X509ValidationError::from_raw(0), None);
    assert_eq!(X509ValidationError::from_raw(2), Some(X509ValidationError::X509UnableToGetIssuerCert));
    assert_eq!(X509ValidationError::from_raw(10), Some(X509ValidationError::X509CertHasExpired));
    assert_eq!(X509ValidationError::from_raw(18), Some(X509ValidationError::X509DepthZeroSelfSignedCert));
    assert_eq!(X509ValidationError::from_raw(50), Some(X509ValidationError::X509ApplicationVerification));
    assert_eq!(X509ValidationError::from_raw(54), Some(X509ValidationError::X509CrlPathValidationError));
    assert_eq!(X509ValidationError::from_raw(1), Some(X509ValidationError::X509UnknownError(1)));
    assert_eq!(X509ValidationError::from_raw(55), Some(X509ValidationError::X509UnknownError(55)));
}

#[test]
fn store_context_exposes_error_and_certificate() {
    let ctx = store(19);
    assert_eq!(ctx.get_error(), Some(X509ValidationError::X509SelfSignedCertInChain));
    assert_eq!(ctx.get_current_cert().unwrap().subject_name().as_str(), "CN=example");
    let empty = X509StoreContext::new(0, None);
    assert_eq!(empty.get_error(), None);
    assert!(empty.get_current_cert().is_none());
}

#[test]
fn name_format_flags() {
    assert_eq!(X509NameFormat::Rfc2253.flags(), 0x1110317);
    assert_eq!(X509NameFormat::Oneline.flags(), 0x82031f);
    assert_eq!(X509NameFormat::Multiline.flags(), 0x2a40006);
}

#[test]
fn verify_mode_and_option_values() {
    assert_eq!(SslVerifyMode::SslVerifyPeer.raw(), 1);
    assert_eq!(SslVerifyMode::SslVerifyNone.raw(), 0);
    assert_eq!(SslOption::LegacyRenegotiation.bits(), 0x4000);
}

#[test]
fn new_context_has_no_callback() {
    let ctx: SslContext<Callback> = SslContext::new(SslMethod::Tlsv1);
    assert_eq!(ctx.method(), SslMethod::Tlsv1);
    assert_eq!(ctx.verify_mode(), SslVerifyMode::SslVerifyNone);
    assert_eq!(ctx.verify_certificate(1, &store(0)), 1);
    assert_eq!(ctx.verify_certificate(0, &store(10)), 0);
}

#[test]
fn callback_decides_the_verdict() {
    let mut ctx: SslContext<Callback> = SslContext::new(SslMethod::Sslv23);
    ctx.set_verify(SslVerifyMode::SslVerifyPeer, Some(reject_all as Callback));
    assert_eq!(ctx.verify_mode(), SslVerifyMode::SslVerifyPeer);
    assert_eq!(ctx.verify_certificate(1, &store(0)), 0);
    ctx.set_verify(SslVerifyMode::SslVerifyPeer, Some(accept_all as Callback));
    assert_eq!(ctx.verify_certificate(0, &store(18)), 1);
    ctx.set_verify(SslVerifyMode::SslVerifyPeer, Some(reject_expired as Callback));
    assert_eq!(ctx.verify_certificate(1, &store(10)), 0);
    assert_eq!(ctx.verify_certificate(1, &store(0)), 1);
    assert_eq!(ctx.verify_certificate(0, &store(0)), 0);
}

#[test]
fn cipher_record_fills_missing_text() {
    let c = SslCipher::from_cipher(Some("AES256-SHA".to_string()), 256, Some("SSLv3".to_string()));
    assert_eq!(c.name, "AES256-SHA");
    assert_eq!(c.bits, 256);
    assert_eq!(c.version, "SSLv3");
    let d = SslCipher::from_cipher(None, 0, None);
    assert_eq!(d.name, "");
    assert_eq!(d.version, "");
}
