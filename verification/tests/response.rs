use cert_inspector::certificate::ValidationResult;
use cert_inspector::error::{CertificateError, ErrorClass, ErrorKind};
use cert_inspector::response::{
    reply_to, Reply, STATUS_BAD_REQUEST, STATUS_INTERNAL_SERVER_ERROR, STATUS_OK,
};

fn record() -> ValidationResult {
    ValidationResult {
        validity_status: true,
        expiration_date: "Jan  1 00:00:00 2030 GMT".to_string(),
        issuer_details: "Example CA".to_string(),
        subject_details: "example.com".to_string(),
        is_valid_for_domain: true,
        is_not_self_signed: true,
        revocation_status: "Unknown".to_string(),
    }
}

#[test]
fn a_record_is_reported_unchanged_with_status_ok() {
    let reply = reply_to(Ok(record()));
    assert_eq!(reply.status(), 200);
    assert_eq!(STATUS_OK, 200);
    match reply {
        Reply::Record(reported) => {
            assert!(reported.validity_status);
            assert_eq!(reported.expiration_date, "Jan  1 00:00:00 2030 GMT");
            assert_eq!(reported.issuer_details, "Example CA");
            assert_eq!(reported.subject_details, "example.com");
            assert!(reported.is_valid_for_domain);
            assert!(reported.is_not_self_signed);
            assert_eq!(reported.revocation_status, "Unknown");
        },
        other => panic!("expected a record, got {:?}", other),
    }
}

#[test]
fn failures_to_obtain_the_certificate_are_bad_requests() {
    let kinds = [
        ErrorKind::Resolution,
        ErrorKind::Connect,
        ErrorKind::Handshake,
        ErrorKind::Timeout,
        ErrorKind::NoCertificate,
    ];
    for kind in kinds {
        assert_eq!(kind.class(), ErrorClass::Acquisition);
        let reply = reply_to(Err(CertificateError::new(kind, "Connection refused")));
        assert_eq!(reply.status(), 400);
        match reply {
            Reply::Failure { status, body } => {
                assert_eq!(status, STATUS_BAD_REQUEST);
                assert_eq!(body, "Error fetching certificate: Connection refused");
            },
            other => panic!("expected a failure, got {:?}", other),
        }
    }
}

#[test]
fn a_failure_to_evaluate_is_an_internal_fault() {
    assert_eq!(ErrorKind::Encoding.class(), ErrorClass::Evaluation);
    let reply = reply_to(Err(CertificateError::new(ErrorKind::Encoding, "Name entry is not valid text")));
    assert_eq!(reply.status(), 500);
    match reply {
        Reply::Failure { status, body } => {
            assert_eq!(status, STATUS_INTERNAL_SERVER_ERROR);
            assert_eq!(body, "Validation error: Name entry is not valid text");
        },
        other => panic!("expected a failure, got {:?}", other),
    }
}

#[test]
fn a_failure_carries_its_kind_and_message() {
    let error = CertificateError::new(ErrorKind::Timeout, "SSL handshake timed out");
    assert_eq!(error.kind, ErrorKind::Timeout);
    assert_eq!(error.message(), "SSL handshake timed out");
    assert_eq!(error.class(), ErrorClass::Acquisition);
    let empty = CertificateError::new(ErrorKind::Connect, "");
    match reply_to(Err(empty)) {
        Reply::Failure { body, .. } => assert_eq!(body, "Error fetching certificate: "),
        other => panic!("expected a failure, got {:?}", other),
    }
}
