//! The failures that end an inspection.

use vstd::prelude::*;
use vstd::string::StringExecFns;

verus! {

/// The distinct ways in which one inspection can end without a result.
#[derive(Clone, Copy, Debug, PartialEq, Eq, Structural)]
pub enum ErrorKind {
    /// The host name could not be resolved to an address.
    Resolution,
    /// The TCP connection could not be established.
    Connect,
    /// The TLS negotiation failed.
    Handshake,
    /// The TLS handshake did not complete within the configured bound.
    Timeout,
    /// The session completed but exposed no peer certificate.
    NoCertificate,
    /// The value of a name entry could not be decoded as text.
    Encoding,
}

/// The two coarse classes into which callers sort failures.
#[derive(Clone, Copy, Debug, PartialEq, Eq, Structural)]
pub enum ErrorClass {
    /// The certificate could not be obtained from the target.
    Acquisition,
    /// The certificate was obtained but could not be evaluated.
    Evaluation,
}

impl ErrorKind {
    /// The class of a failure kind: only a decoding failure belongs to evaluation.
    pub open spec fn spec_class(self) -> ErrorClass {
        match self {
            ErrorKind::Encoding => ErrorClass::Evaluation,
            _ => ErrorClass::Acquisition,
        }
    }

    /// Returns the class of this failure kind.
    pub fn class(self) -> (class: ErrorClass)
        ensures
            class == self.spec_class(),
    {
        match self {
            ErrorKind::Encoding => ErrorClass::Evaluation,
            _ => ErrorClass::Acquisition,
        }
    }
}

/// A terminal failure of one inspection: its kind and a descriptive message.
#[derive(Debug)]
pub struct CertificateError {
    pub kind: ErrorKind,
    pub detail: String,
}

/// The message reported when the handshake exceeds its time bound.
pub open spec fn timeout_message() -> Seq<char> {
    "SSL handshake timed out"@
}

/// The message reported when name resolution yields no address.
pub open spec fn unresolved_message() -> Seq<char> {
    "Unable to resolve domain"@
}

/// The message reported when the session exposes no certificate.
pub open spec fn missing_certificate_message() -> Seq<char> {
    "No certificate found"@
}

/// The message reported when a name entry is not valid text.
pub open spec fn undecodable_entry_message() -> Seq<char> {
    "Name entry is not valid text"@
}

impl CertificateError {
    /// Builds a failure of the given kind that carries `detail` as its message.
    pub fn new(kind: ErrorKind, detail: &str) -> (error: CertificateError)
        ensures
            error.kind == kind,
            error.detail@ == detail@,
    {
        CertificateError { kind, detail: String::from_str(detail) }
    }

    /// Returns the class of this failure.
    pub fn class(&self) -> (class: ErrorClass)
        ensures
            class == self.kind.spec_class(),
    {
        self.kind.class()
    }

    /// Returns the descriptive message of this failure.
    pub fn message(&self) -> (text: String)
        ensures
            text@ == self.detail@,
    {
        self.detail.clone()
    }
}

} // verus!
