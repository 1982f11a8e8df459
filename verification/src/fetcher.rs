//! The fetcher: the leaf certificate of an established session.

use vstd::prelude::*;
use openssl::ssl::SslRef;
use openssl::x509::X509;
use crate::error::{missing_certificate_message, CertificateError, ErrorKind};

verus! {

/// A borrowed session of the TLS library: opaque here.
#[verifier::external_type_specification]
#[verifier::external_body]
pub struct ExSslRef(SslRef);

/// A certificate of the TLS library: opaque here, read only through the TLS
/// library.
#[verifier::external_type_specification]
#[verifier::external_body]
pub struct ExX509(X509);

/// The certificate that the peer of a session presented, if it presented
/// one: what the TLS library keeps of the handshake.
pub uninterp spec fn session_certificate(session: SslRef) -> Option<X509>;

/// Calls `SslRef::peer_certificate`, which returns the peer's certificate if
/// the session has one. The contract gives that result its name: it depends
/// on the session alone.
#[verifier::external_body]
fn peer_certificate(session: &SslRef) -> (found: Option<X509>)
    ensures
        found == session_certificate(*session),
{
    session.peer_certificate()
}

/// Turns what a session exposed into the fetcher's outcome: the certificate
/// itself where there is one, and otherwise the failure that says so.
pub fn certificate_or_missing(found: Option<X509>) -> (res: Result<X509, CertificateError>)
    ensures
        found matches Some(cert) ==> res == Ok::<X509, CertificateError>(cert),
        found is None ==> (res matches Err(error) && error.kind == ErrorKind::NoCertificate
            && error.detail@ == missing_certificate_message()),
{
    match found {
        Some(cert) => Ok(cert),
        None => Err(CertificateError::new(ErrorKind::NoCertificate, "No certificate found")),
    }
}

/// Takes the peer's leaf certificate out of an established session. The
/// certificate is owned by the caller and keeps no reference to the session.
/// It fails if and only if the session exposes no certificate.
pub fn fetch_certificate(session: &SslRef) -> (res: Result<X509, CertificateError>)
    ensures
        match session_certificate(*session) {
            Some(cert) => res == Ok::<X509, CertificateError>(cert),
            None => res matches Err(error) && error.kind == ErrorKind::NoCertificate
                && error.detail@ == missing_certificate_message(),
        },
{
    certificate_or_missing(peer_certificate(session))
}

} // verus!
