//! The verification context that the engine hands to a certificate
//! verification callback, and what it exposes.
use vstd::prelude::*;

verus! {

/// The code of a successful validation.
pub const X509_V_OK: i32 = 0;

/// Why the validation of a certificate failed.
#[derive(Clone, Copy, Debug, PartialEq, Eq, Structural)]
pub enum X509ValidationError {
    X509UnableToGetIssuerCert,
    X509UnableToGetCrl,
    X509UnableToDecryptCertSignature,
    X509UnableToDecryptCrlSignature,
    X509UnableToDecodeIssuerPublicKey,
    X509CertSignatureFailure,
    X509CrlSignatureFailure,
    X509CertNotYetValid,
    X509CertHasExpired,
    X509CrlNotYetValid,
    X509CrlHasExpired,
    X509ErrorInCertNotBeforeField,
    X509ErrorInCertNotAfterField,
    X509ErrorInCrlLastUpdateField,
    X509ErrorInCrlNextUpdateField,
    X509OutOfMem,
    X509DepthZeroSelfSignedCert,
    X509SelfSignedCertInChain,
    X509UnableToGetIssuerCertLocally,
    X509UnableToVerifyLeafSignature,
    X509CertChainTooLong,
    X509CertRevoked,
    X509InvalidCA,
    X509PathLengthExceeded,
    X509InvalidPurpose,
    X509CertUntrusted,
    X509CertRejected,
    X509SubjectIssuerMismatch,
    X509AkidSkidMismatch,
    X509AkidIssuerSerialMismatch,
    X509KeyusageNoCertsign,
    X509UnableToGetCrlIssuer,
    X509UnhandledCriticalExtension,
    X509KeyusageNoCrlSign,
    X509UnhandledCriticalCrlExtension,
    X509InvalidNonCA,
    X509ProxyPathLengthExceeded,
    X509KeyusageNoDigitalSignature,
    X509ProxyCertificatesNotAllowed,
    X509InvalidExtension,
    X509InavlidPolicyExtension,
    X509NoExplicitPolicy,
    X509DifferentCrlScope,
    X509UnsupportedExtensionFeature,
    X509UnnestedResource,
    X509PermittedVolation,
    X509ExcludedViolation,
    X509SubtreeMinmax,
    X509ApplicationVerification,
    X509UnsupportedConstraintType,
    X509UnsupportedConstraintSyntax,
    X509UnsupportedNameSyntax,
    X509CrlPathValidationError,
    /// A code that this library does not know.
    X509UnknownError(i32),
}

impl X509ValidationError {
    /// The engine's code for this failure.
    pub open spec fn code(self) -> i32 {
        match self {
            X509ValidationError::X509UnableToGetIssuerCert => 2,
            X509ValidationError::X509UnableToGetCrl => 3,
            X509ValidationError::X509UnableToDecryptCertSignature => 4,
            X509ValidationError::X509UnableToDecryptCrlSignature => 5,
            X509ValidationError::X509UnableToDecodeIssuerPublicKey => 6,
            X509ValidationError::X509CertSignatureFailure => 7,
            X509ValidationError::X509CrlSignatureFailure => 8,
            X509ValidationError::X509CertNotYetValid => 9,
            X509ValidationError::X509CertHasExpired => 10,
            X509ValidationError::X509CrlNotYetValid => 11,
            X509ValidationError::X509CrlHasExpired => 12,
            X509ValidationError::X509ErrorInCertNotBeforeField => 13,
            X509ValidationError::X509ErrorInCertNotAfterField => 14,
            X509ValidationError::X509ErrorInCrlLastUpdateField => 15,
            X509ValidationError::X509ErrorInCrlNextUpdateField => 16,
            X509ValidationError::X509OutOfMem => 17,
            X509ValidationError::X509DepthZeroSelfSignedCert => 18,
            X509ValidationError::X509SelfSignedCertInChain => 19,
            X509ValidationError::X509UnableToGetIssuerCertLocally => 20,
            X509ValidationError::X509UnableToVerifyLeafSignature => 21,
            X509ValidationError::X509CertChainTooLong => 22,
            X509ValidationError::X509CertRevoked => 23,
            X509ValidationError::X509InvalidCA => 24,
            X509ValidationError::X509PathLengthExceeded => 25,
            X509ValidationError::X509InvalidPurpose => 26,
            X509ValidationError::X509CertUntrusted => 27,
            X509ValidationError::X509CertRejected => 28,
            X509ValidationError::X509SubjectIssuerMismatch => 29,
            X509ValidationError::X509AkidSkidMismatch => 30,
            X509ValidationError::X509AkidIssuerSerialMismatch => 31,
            X509ValidationError::X509KeyusageNoCertsign => 32,
            X509ValidationError::X509UnableToGetCrlIssuer => 33,
            X509ValidationError::X509UnhandledCriticalExtension => 34,
            X509ValidationError::X509KeyusageNoCrlSign => 35,
            X509ValidationError::X509UnhandledCriticalCrlExtension => 36,
            X509ValidationError::X509InvalidNonCA => 37,
            X509ValidationError::X509ProxyPathLengthExceeded => 38,
            X509ValidationError::X509KeyusageNoDigitalSignature => 39,
            X509ValidationError::X509ProxyCertificatesNotAllowed => 40,
            X509ValidationError::X509InvalidExtension => 41,
            X509ValidationError::X509InavlidPolicyExtension => 42,
            X509ValidationError::X509NoExplicitPolicy => 43,
            X509ValidationError::X509DifferentCrlScope => 44,
            X509ValidationError::X509UnsupportedExtensionFeature => 45,
            X509ValidationError::X509UnnestedResource => 46,
            X509ValidationError::X509PermittedVolation => 47,
            X509ValidationError::X509ExcludedViolation => 48,
            X509ValidationError::X509SubtreeMinmax => 49,
            X509ValidationError::X509ApplicationVerification => 50,
            X509ValidationError::X509UnsupportedConstraintType => 51,
            X509ValidationError::X509UnsupportedConstraintSyntax => 52,
            X509ValidationError::X509UnsupportedNameSyntax => 53,
            X509ValidationError::X509CrlPathValidationError => 54,
            X509ValidationError::X509UnknownError(c) => c,
        }
    }

    /// The failure that an engine's validation code stands for: `None` for
    /// success, a named failure for a code that the library knows, and
    /// `X509UnknownError` with the code for any other.
    pub fn from_raw(err: i32) -> (r: Option<X509ValidationError>)
        ensures
            r is None <==> err == X509_V_OK,
            r is Some ==> r->0.code() == err,
            r matches Some(X509ValidationError::X509UnknownError(_)) <==> !(err == 0 || 2 <= err <= 54),
    {
        match err {
            X509_V_OK => None,
            2 => Some(X509ValidationError::X509UnableToGetIssuerCert),
            3 => Some(X509ValidationError::X509UnableToGetCrl),
            4 => Some(X509ValidationError::X509UnableToDecryptCertSignature),
            5 => Some(X509ValidationError::X509UnableToDecryptCrlSignature),
            6 => Some(X509ValidationError::X509UnableToDecodeIssuerPublicKey),
            7 => Some(X509ValidationError::X509CertSignatureFailure),
            8 => Some(X509ValidationError::X509CrlSignatureFailure),
            9 => Some(X509ValidationError::X509CertNotYetValid),
            10 => Some(X509ValidationError::X509CertHasExpired),
            11 => Some(X509ValidationError::X509CrlNotYetValid),
            12 => Some(X509ValidationError::X509CrlHasExpired),
            13 => Some(X509ValidationError::X509ErrorInCertNotBeforeField),
            14 => Some(X509ValidationError::X509ErrorInCertNotAfterField),
            15 => Some(X509ValidationError::X509ErrorInCrlLastUpdateField),
            16 => Some(X509ValidationError::X509ErrorInCrlNextUpdateField),
            17 => Some(X509ValidationError::X509OutOfMem),
            18 => Some(X509ValidationError::X509DepthZeroSelfSignedCert),
            19 => Some(X509ValidationError::X509SelfSignedCertInChain),
            20 => Some(X509ValidationError::X509UnableToGetIssuerCertLocally),
            21 => Some(X509ValidationError::X509UnableToVerifyLeafSignature),
            22 => Some(X509ValidationError::X509CertChainTooLong),
            23 => Some(X509ValidationError::X509CertRevoked),
            24 => Some(X509ValidationError::X509InvalidCA),
            25 => Some(X509ValidationError::X509PathLengthExceeded),
            26 => Some(X509ValidationError::X509InvalidPurpose),
            27 => Some(X509ValidationError::X509CertUntrusted),
            28 => Some(X509ValidationError::X509CertRejected),
            29 => Some(X509ValidationError::X509SubjectIssuerMismatch),
            30 => Some(X509ValidationError::X509AkidSkidMismatch),
            31 => Some(X509ValidationError::X509AkidIssuerSerialMismatch),
            32 => Some(X509ValidationError::X509KeyusageNoCertsign),
            33 => Some(X509ValidationError::X509UnableToGetCrlIssuer),
            34 => Some(X509ValidationError::X509UnhandledCriticalExtension),
            35 => Some(X509ValidationError::X509KeyusageNoCrlSign),
            36 => Some(X509ValidationError::X509UnhandledCriticalCrlExtension),
            37 => Some(X509ValidationError::X509InvalidNonCA),
            38 => Some(X509ValidationError::X509ProxyPathLengthExceeded),
            39 => Some(X509ValidationError::X509KeyusageNoDigitalSignature),
            40 => Some(X509ValidationError::X509ProxyCertificatesNotAllowed),
            41 => Some(X509ValidationError::X509InvalidExtension),
            42 => Some(X509ValidationError::X509InavlidPolicyExtension),
            43 => Some(X509ValidationError::X509NoExplicitPolicy),
            44 => Some(X509ValidationError::X509DifferentCrlScope),
            45 => Some(X509ValidationError::X509UnsupportedExtensionFeature),
            46 => Some(X509ValidationError::X509UnnestedResource),
            47 => Some(X509ValidationError::X509PermittedVolation),
            48 => Some(X509ValidationError::X509ExcludedViolation),
            49 => Some(X509ValidationError::X509SubtreeMinmax),
            50 => Some(X509ValidationError::X509ApplicationVerification),
            51 => Some(X509ValidationError::X509UnsupportedConstraintType),
            52 => Some(X509ValidationError::X509UnsupportedConstraintSyntax),
            53 => Some(X509ValidationError::X509UnsupportedNameSyntax),
            54 => Some(X509ValidationError::X509CrlPathValidationError),
            _ => Some(X509ValidationError::X509UnknownError(err)),
        }
    }
}

/// The formats in which a distinguished name can be printed.
#[derive(Clone, Copy, Debug, PartialEq, Eq, Structural)]
pub enum X509NameFormat {
    Rfc2253,
    Oneline,
    Multiline,
}

impl X509NameFormat {
    /// The engine's print flags for this format.
    pub fn flags(&self) -> (r: u64)
        ensures
            *self == X509NameFormat::Rfc2253 ==> r == 0x1110317,
            *self == X509NameFormat::Oneline ==> r == 0x82031f,
            *self == X509NameFormat::Multiline ==> r == 0x2a40006,
    {
        match self {
            X509NameFormat::Rfc2253 => 0x1110317,
            X509NameFormat::Oneline => 0x82031f,
            X509NameFormat::Multiline => 0x2a40006,
        }
    }
}

/// A distinguished name, as the engine printed it.
pub struct X509Name {
    text: String,
}

impl X509Name {
    pub closed spec fn view(&self) -> Seq<char> {
        self.text@
    }

    pub fn new(text: String) -> (r: X509Name)
        ensures
            r.view() == text@,
    {
        X509Name { text }
    }

    /// The printed name.
    pub fn as_str(&self) -> (r: &str)
        ensures
            r@ == self.view(),
    {
        self.text.as_str()
    }
}

/// A public key certificate, as far as a verification callback sees it.
pub struct X509 {
    subject: X509Name,
}

impl X509 {
    pub closed spec fn subject(&self) -> Seq<char> {
        self.subject.view()
    }

    pub fn new(subject: X509Name) -> (r: X509)
        ensures
            r.subject() == subject.view(),
    {
        X509 { subject }
    }

    /// The certificate's subject name.
    pub fn subject_name(&self) -> (r: &X509Name)
        ensures
            r.view() == self.subject(),
    {
        &self.subject
    }
}

/// The engine's validation state at one certificate of the chain, valid
/// for one call of a verification callback.
pub struct X509StoreContext {
    error: i32,
    current_cert: Option<X509>,
}

impl X509StoreContext {
    /// The engine's validation code.
    pub closed spec fn error_code(&self) -> i32 {
        self.error
    }

    /// The subject of the certificate under validation, if there is one.
    pub closed spec fn current_subject(&self) -> Option<Seq<char>> {
        match self.current_cert {
            Some(c) => Some(c.subject()),
            None => None,
        }
    }

    pub fn new(error: i32, current_cert: Option<X509>) -> (r: X509StoreContext)
        ensures
            r.error_code() == error,
            r.current_subject() == (match current_cert {
                Some(c) => Some(c.subject()),
                None => None,
            }),
    {
        X509StoreContext { error, current_cert }
    }

    /// The validation failure at the current certificate, or `None` where
    /// it validated.
    pub fn get_error(&self) -> (r: Option<X509ValidationError>)
        ensures
            r is None <==> self.error_code() == X509_V_OK,
            r is Some ==> r->0.code() == self.error_code(),
            r matches Some(X509ValidationError::X509UnknownError(_))
                <==> !(self.error_code() == 0 || 2 <= self.error_code() <= 54),
    {
        X509ValidationError::from_raw(self.error)
    }

    /// The certificate under validation, if there is one.
    pub fn get_current_cert(&self) -> (r: Option<&X509>)
        ensures
            r is Some <==> self.current_subject() is Some,
            r is Some ==> r->0.subject() == self.current_subject()->0,
    {
        match &self.current_cert {
            Some(c) => Some(c),
            None => None,
        }
    }
}

} // verus!
