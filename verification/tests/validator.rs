use cert_inspector::certificate::{Certificate, DistinguishedName};
use cert_inspector::error::ErrorKind;
use cert_inspector::validator::{is_unexpired, matches_host, render_name, validate_at};

const NOW: i64 = 1_700_000_000;

fn name(values: &[&str]) -> DistinguishedName {
    DistinguishedName { entries: values.iter().map(|v| Some(v.to_string())).collect() }
}

fn dns(values: &[&str]) -> Option<Vec<Option<String>>> {
    Some(values.iter().map(|v| Some(v.to_string())).collect())
}

fn sample(not_after: i64, alt_names: Option<Vec<Option<String>>>) -> Certificate {
    Certificate {
        not_before: Some(1_600_000_000),
        not_after: Some(not_after),
        expiration_text: "Jan  1 00:00:00 2030 GMT".to_string(),
        issuer: name(&["US", "Example Trust", "Example CA"]),
        subject: name(&["example.com"]),
        subject_alt_names: alt_names,
    }
}

#[test]
fn renders_entries_in_order_with_comma_and_space() {
    let rendered = render_name(&name(&["US", "Example Trust", "Example CA"])).unwrap();
    assert_eq!(rendered, "US, Example Trust, Example CA");
}

#[test]
fn renders_single_entry_without_separator() {
    assert_eq!(render_name(&name(&["example.com"])).unwrap(), "example.com");
}

#[test]
fn renders_empty_name_as_empty_text() {
    assert_eq!(render_name(&name(&[])).unwrap(), "");
}

#[test]
fn renders_empty_values_between_separators() {
    assert_eq!(render_name(&name(&["", "b", ""])).unwrap(), ", b, ");
}

#[test]
fn undecodable_entry_is_an_encoding_failure() {
    let broken = DistinguishedName { entries: vec![Some("US".to_string()), None] };
    let error = render_name(&broken).unwrap_err();
    assert_eq!(error.kind, ErrorKind::Encoding);
    assert_eq!(error.detail, "Name entry is not valid text");
}

#[test]
fn scenario_valid_certificate_with_matching_alt_name() {
    let cert = sample(1_893_456_000, dns(&["www.example.com", "example.com"]));
    let record = validate_at(&cert, "example.com", Some(NOW)).unwrap();
    assert!(record.validity_status);
    assert!(record.is_valid_for_domain);
    assert!(record.is_not_self_signed);
    assert_eq!(record.revocation_status, "Unknown");
    assert_eq!(record.expiration_date, "Jan  1 00:00:00 2030 GMT");
    assert_eq!(record.issuer_details, "US, Example Trust, Example CA");
    assert_eq!(record.subject_details, "example.com");
}

#[test]
fn scenario_expired_certificate_is_not_valid() {
    let cert = sample(NOW - 86_400, dns(&["example.com"]));
    let record = validate_at(&cert, "example.com", Some(NOW)).unwrap();
    assert!(!record.validity_status);
    assert!(record.is_valid_for_domain);
    assert!(record.is_not_self_signed);
    assert_eq!(record.revocation_status, "Unknown");
    assert_eq!(record.issuer_details, "US, Example Trust, Example CA");
    assert_eq!(record.subject_details, "example.com");
}

#[test]
fn scenario_self_issued_certificate() {
    let mut cert = sample(1_893_456_000, dns(&["internal.test"]));
    cert.issuer = name(&["Lab", "internal.test"]);
    cert.subject = name(&["Lab", "internal.test"]);
    let record = validate_at(&cert, "internal.test", Some(NOW)).unwrap();
    assert!(!record.is_not_self_signed);
    assert_eq!(record.issuer_details, "Lab, internal.test");
    assert_eq!(record.subject_details, record.issuer_details);
    assert!(record.validity_status);
    assert!(record.is_valid_for_domain);
}

#[test]
fn names_with_the_same_text_count_as_self_signed() {
    let mut cert = sample(1_893_456_000, None);
    cert.issuer = name(&["A, B"]);
    cert.subject = name(&["A", "B"]);
    let record = validate_at(&cert, "example.com", Some(NOW)).unwrap();
    assert_eq!(record.issuer_details, "A, B");
    assert_eq!(record.subject_details, "A, B");
    assert!(!record.is_not_self_signed);
}

#[test]
fn expiry_at_the_instant_of_evaluation_is_not_valid() {
    let cert = sample(NOW, dns(&["example.com"]));
    assert!(!validate_at(&cert, "example.com", Some(NOW)).unwrap().validity_status);
}

#[test]
fn expiry_one_second_after_the_instant_is_valid() {
    let cert = sample(NOW + 1, dns(&["example.com"]));
    assert!(validate_at(&cert, "example.com", Some(NOW)).unwrap().validity_status);
}

#[test]
fn a_certificate_that_is_not_yet_valid_is_reported_valid() {
    let mut cert = sample(NOW + 10_000, dns(&["example.com"]));
    cert.not_before = Some(NOW + 5_000);
    let later = validate_at(&cert, "example.com", Some(NOW)).unwrap();
    cert.not_before = Some(NOW - 5_000);
    let earlier = validate_at(&cert, "example.com", Some(NOW)).unwrap();
    cert.not_before = None;
    let unknown = validate_at(&cert, "example.com", Some(NOW)).unwrap();
    assert!(later.validity_status);
    assert!(earlier.validity_status);
    assert!(unknown.validity_status);
}

#[test]
fn unknown_instants_are_never_valid() {
    let mut cert = sample(NOW + 10_000, None);
    assert!(!validate_at(&cert, "example.com", None).unwrap().validity_status);
    cert.not_after = None;
    assert!(!validate_at(&cert, "example.com", Some(NOW)).unwrap().validity_status);
    assert!(!is_unexpired(None, None));
}

#[test]
fn expiry_is_compared_over_the_whole_range() {
    assert!(is_unexpired(Some(i64::MAX), Some(i64::MIN)));
    assert!(!is_unexpired(Some(i64::MIN), Some(i64::MAX)));
    assert!(is_unexpired(Some(0), Some(-1)));
    assert!(!is_unexpired(Some(-1), Some(0)));
    assert!(!is_unexpired(Some(7), Some(7)));
}

#[test]
fn alt_name_match_is_case_sensitive() {
    let cert = sample(NOW + 1, dns(&["Example.com"]));
    assert!(!validate_at(&cert, "example.com", Some(NOW)).unwrap().is_valid_for_domain);
    assert!(validate_at(&cert, "Example.com", Some(NOW)).unwrap().is_valid_for_domain);
}

#[test]
fn wildcards_are_not_expanded() {
    let cert = sample(NOW + 1, dns(&["*.example.com"]));
    assert!(!validate_at(&cert, "www.example.com", Some(NOW)).unwrap().is_valid_for_domain);
    assert!(validate_at(&cert, "*.example.com", Some(NOW)).unwrap().is_valid_for_domain);
}

#[test]
fn absent_alt_names_do_not_fall_back_to_the_subject() {
    let cert = sample(NOW + 1, None);
    let record = validate_at(&cert, "example.com", Some(NOW)).unwrap();
    assert_eq!(record.subject_details, "example.com");
    assert!(!record.is_valid_for_domain);
}

#[test]
fn empty_alt_names_match_nothing() {
    assert!(!matches_host(&Some(vec![]), "example.com"));
    assert!(!matches_host(&Some(vec![]), ""));
}

#[test]
fn entries_of_other_kinds_do_not_match() {
    let names = Some(vec![None, Some("other.test".to_string()), None]);
    assert!(!matches_host(&names, "example.com"));
    assert!(matches_host(&names, "other.test"));
}

#[test]
fn a_longer_or_shorter_name_does_not_match() {
    let names = dns(&["example.com"]);
    assert!(!matches_host(&names, "example.co"));
    assert!(!matches_host(&names, "example.com."));
    assert!(!matches_host(&names, ""));
    assert!(matches_host(&names, "example.com"));
}

#[test]
fn the_last_alt_name_can_match() {
    let names = dns(&["a.test", "b.test", "c.test"]);
    assert!(matches_host(&names, "c.test"));
    assert!(matches_host(&names, "a.test"));
    assert!(!matches_host(&names, "d.test"));
}

#[test]
fn revocation_is_unknown_for_every_record() {
    let valid = sample(NOW + 1, dns(&["example.com"]));
    let expired = sample(NOW - 1, None);
    assert_eq!(validate_at(&valid, "example.com", Some(NOW)).unwrap().revocation_status, "Unknown");
    assert_eq!(validate_at(&expired, "other.test", None).unwrap().revocation_status, "Unknown");
}

#[test]
fn undecodable_issuer_fails_the_evaluation() {
    let mut cert = sample(NOW + 1, dns(&["example.com"]));
    cert.issuer = DistinguishedName { entries: vec![None] };
    let error = validate_at(&cert, "example.com", Some(NOW)).unwrap_err();
    assert_eq!(error.kind, ErrorKind::Encoding);
}

#[test]
fn undecodable_subject_fails_the_evaluation() {
    let mut cert = sample(NOW + 1, dns(&["example.com"]));
    cert.subject = DistinguishedName { entries: vec![Some("ok".to_string()), None, Some("ok".to_string())] };
    let error = validate_at(&cert, "example.com", Some(NOW)).unwrap_err();
    assert_eq!(error.kind, ErrorKind::Encoding);
    assert_eq!(error.detail, "Name entry is not valid text");
}

#[test]
fn expiration_text_is_reported_as_given() {
    let mut cert = sample(NOW + 1, None);
    cert.expiration_text = "Sep  9 01:46:40 2001 GMT".to_string();
    let record = validate_at(&cert, "example.com", Some(NOW)).unwrap();
    assert_eq!(record.expiration_date, "Sep  9 01:46:40 2001 GMT");
}
