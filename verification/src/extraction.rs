//! Reading a certificate of the TLS library into the validator's model.

use vstd::prelude::*;
use openssl::asn1::{Asn1Time, Asn1TimeRef};
use openssl::x509::{X509NameRef, X509};
use crate::certificate::{
    entry_views, Certificate, CertificateView, DistinguishedName, ValidationResult,
};
use crate::error::{undecodable_entry_message, CertificateError, ErrorKind};
use crate::validator::{render_name, rendered, reports, validate_at, validation};

verus! {

/// An owned time of the TLS library: carried through unread.
#[verifier::external_type_specification]
#[verifier::external_body]
pub struct ExAsn1Time(Asn1Time);

/// A borrowed time of the TLS library: carried through unread.
#[verifier::external_type_specification]
#[verifier::external_body]
pub struct ExAsn1TimeRef(Asn1TimeRef);

/// A borrowed name of the TLS library: a sequence of entries, of which the
/// validator reads the values.
#[verifier::external_type_specification]
#[verifier::external_body]
pub struct ExX509NameRef(X509NameRef);

/// What a name of the TLS library holds: the values of its entries in their
/// order, each as the text that the library decodes it to, or nothing where
/// it cannot decode it.
pub uninterp spec fn name_entries(name: X509NameRef) -> Seq<Option<Seq<char>>>;

/// The issuer's name in a certificate.
pub uninterp spec fn issuer_of(cert: X509) -> X509NameRef;

/// The subject's name in a certificate.
pub uninterp spec fn subject_of(cert: X509) -> X509NameRef;

/// The start of a certificate's validity period.
pub uninterp spec fn not_before_of(cert: X509) -> Asn1TimeRef;

/// The end of a certificate's validity period.
pub uninterp spec fn not_after_of(cert: X509) -> Asn1TimeRef;

/// A time as the TLS library prints it.
pub uninterp spec fn printed(time: Asn1TimeRef) -> Seq<char>;

/// The entries of a certificate's subject alternative name extension in
/// their order, or nothing where it has no such extension: a DNS entry is
/// its name, an entry of any other kind is nothing.
pub uninterp spec fn alt_name_entries(cert: X509) -> Option<Seq<Option<Seq<char>>>>;

/// The TLS library's time for a number of seconds since the Unix epoch, or
/// nothing where it has none.
pub uninterp spec fn unix_time(seconds: i64) -> Option<Asn1Time>;

/// An owned time, borrowed.
pub uninterp spec fn as_reference(time: Asn1Time) -> Asn1TimeRef;

/// The days and seconds that the TLS library counts from one time to
/// another, or nothing where it cannot count them.
pub uninterp spec fn difference(from: Asn1TimeRef, to: Asn1TimeRef) -> Option<(i32, i32)>;

/// The number of seconds in a day.
pub const SECONDS_PER_DAY: i64 = 86400;

/// Calls `X509Ref::not_after`, which depends on the certificate alone: the
/// contract gives the time its name.
#[verifier::external_body]
fn not_after(cert: &X509) -> (time: &Asn1TimeRef)
    ensures
        *time == not_after_of(*cert),
{
    cert.not_after()
}

/// Calls `X509Ref::not_before`, which depends on the certificate alone: the
/// contract gives the time its name.
#[verifier::external_body]
fn not_before(cert: &X509) -> (time: &Asn1TimeRef)
    ensures
        *time == not_before_of(*cert),
{
    cert.not_before()
}

/// Calls `X509Ref::issuer_name`, which depends on the certificate alone: the
/// contract gives the name its name.
#[verifier::external_body]
fn issuer_name(cert: &X509) -> (name: &X509NameRef)
    ensures
        *name == issuer_of(*cert),
{
    cert.issuer_name()
}

/// Calls `X509Ref::subject_name`, which depends on the certificate alone:
/// the contract gives the name its name.
#[verifier::external_body]
fn subject_name(cert: &X509) -> (name: &X509NameRef)
    ensures
        *name == subject_of(*cert),
{
    cert.subject_name()
}

/// Prints a time through the `Display` impl of `Asn1TimeRef`. The contract
/// gives the text its name: it depends on the time alone.
#[verifier::external_body]
fn time_text(time: &Asn1TimeRef) -> (text: String)
    ensures
        text@ == printed(*time),
{
    time.to_string()
}

/// Calls `Asn1Time::from_unix`; `None` stands for its error. The contract
/// gives the result its name: it depends on the number alone.
#[verifier::external_body]
fn time_from_unix(seconds: i64) -> (time: Option<Asn1Time>)
    ensures
        time == unix_time(seconds),
{
    Asn1Time::from_unix(seconds).ok()
}

/// Calls `Asn1Time::days_from_now`, which reads the clock; `None` stands for
/// its error. Only the present is asked for. Nothing is claimed of the time:
/// two calls may differ.
#[verifier::external_body]
fn time_from_now(days: u32) -> (time: Option<Asn1Time>)
    requires
        days == 0,
{
    Asn1Time::days_from_now(days).ok()
}

/// Borrows an owned time through the `Deref` impl of `Asn1Time`, as the
/// reference type that the other calls take. The contract gives the
/// reference its name.
#[verifier::external_body]
fn borrowed(time: &Asn1Time) -> (reference: &Asn1TimeRef)
    ensures
        *reference == as_reference(*time),
{
    time
}

/// Calls `Asn1TimeRef::diff` and hands out the days and seconds that lead
/// from `from` to `to`; `None` stands for its error. The contract gives the
/// two numbers their name: they depend on the two times alone.
#[verifier::external_body]
fn elapsed(from: &Asn1TimeRef, to: &Asn1TimeRef) -> (parts: Option<(i32, i32)>)
    ensures
        parts == difference(*from, *to),
{
    from.diff(to).ok().map(|diff| (diff.days, diff.secs))
}

/// Walks `X509NameRef::entries` and hands out, for each entry in its order,
/// the value as `Asn1StringRef::as_utf8` decodes it, or `None` where that
/// call fails. The contract gives these values their name: the same name
/// always yields the same values.
#[verifier::external_body]
#[allow(deprecated)]
fn entry_values(name: &X509NameRef) -> (values: Vec<Option<String>>)
    ensures
        entry_views(values@) == name_entries(*name),
{
    name.entries().map(|entry| entry.data().as_utf8().ok().map(|text| text.to_string())).collect()
}

/// Calls `X509Ref::subject_alt_names` and hands out, for each entry in its
/// order, what `GeneralNameRef::dnsname` returns for it: the name of a DNS
/// entry, `None` for any other. The result is `None` where the certificate
/// has no such extension. The contract gives the entries their name: they
/// depend on the certificate alone.
#[verifier::external_body]
fn alt_names(cert: &X509) -> (names: Option<Vec<Option<String>>>)
    ensures
        match names {
            Some(entries) => alt_name_entries(*cert) == Some(entry_views(entries@)),
            None => alt_name_entries(*cert) is None,
        },
{
    cert.subject_alt_names().map(
        |names| names.iter().map(|name| name.dnsname().map(|text| text.to_string())).collect(),
    )
}

/// The seconds that a number of days and a number of seconds add up to.
pub open spec fn total_seconds(parts: Option<(i32, i32)>) -> Option<int> {
    match parts {
        Some((days, secs)) => Some(days * SECONDS_PER_DAY + secs),
        None => None,
    }
}

/// The seconds that a difference adds up to, as a machine number: the total
/// always fits.
pub open spec fn seconds_total(parts: Option<(i32, i32)>) -> Option<i64> {
    match total_seconds(parts) {
        Some(total) => Some(total as i64),
        None => None,
    }
}

/// The seconds from `epoch` to `time`, as the TLS library counts them:
/// nothing without an epoch, and nothing where it cannot count them.
pub open spec fn instant_since(epoch: Option<Asn1Time>, time: Asn1TimeRef) -> Option<i64> {
    match epoch {
        Some(epoch) => seconds_total(difference(as_reference(epoch), time)),
        None => None,
    }
}

/// A time of the TLS library as seconds since the Unix epoch.
pub open spec fn instant_of(time: Asn1TimeRef) -> Option<i64> {
    instant_since(unix_time(0), time)
}

/// Whether `now` can be a reading of the clock: nothing, or some time of the
/// TLS library as seconds since the Unix epoch.
pub open spec fn measured(now: Option<i64>) -> bool {
    now is None || exists|present: Asn1Time| now == #[trigger] instant_of(as_reference(present))
}

/// What the validator reads from a certificate of the TLS library: the two
/// ends of the validity period as seconds since the Unix epoch, the later
/// one also as the TLS library prints it, the entries of the issuer's and of
/// the subject's name, and the alternative names.
pub open spec fn certificate_model(cert: X509) -> CertificateView {
    CertificateView {
        not_before: instant_of(not_before_of(cert)),
        not_after: instant_of(not_after_of(cert)),
        expiration_text: printed(not_after_of(cert)),
        issuer: name_entries(issuer_of(cert)),
        subject: name_entries(subject_of(cert)),
        subject_alt_names: alt_name_entries(cert),
    }
}

/// Adds up a difference given as days and seconds.
pub fn seconds_of(parts: Option<(i32, i32)>) -> (seconds: Option<i64>)
    ensures
        match total_seconds(parts) {
            Some(total) => seconds == Some(total as i64) && i64::MIN <= total <= i64::MAX,
            None => seconds is None,
        },
        seconds == seconds_total(parts),
{
    match parts {
        Some((days, secs)) => Some(days as i64 * SECONDS_PER_DAY + secs as i64),
        None => None,
    }
}

/// Reads a time of the TLS library as seconds since `epoch`. Without an
/// epoch there is no reading. With one, the reading is the total of the days
/// and seconds that the TLS library counts from the epoch to the time, and
/// nothing where it cannot count them.
fn seconds_since(epoch: &Option<Asn1Time>, time: &Asn1TimeRef) -> (seconds: Option<i64>)
    ensures
        seconds == instant_since(*epoch, *time),
{
    match epoch {
        Some(epoch) => seconds_of(elapsed(borrowed(epoch), time)),
        None => None,
    }
}

/// Reads the clock as seconds since the Unix epoch, or `None` where the TLS
/// library cannot tell the time. What the clock says is not this library's
/// to say: the reading is the TLS library's present, counted from the epoch
/// as every other time is.
fn current_instant() -> (now: Option<i64>)
    ensures
        measured(now),
{
    let epoch = time_from_unix(0);
    match time_from_now(0) {
        Some(present) => {
            let now = seconds_since(&epoch, borrowed(&present));
            assert(now == instant_of(as_reference(present)));
            now
        },
        None => None,
    }
}

/// Reads the entries of a name of the TLS library.
fn read_name(name: &X509NameRef) -> (model: DistinguishedName)
    ensures
        model@ == name_entries(*name),
{
    DistinguishedName { entries: entry_values(name) }
}

/// Reads from a certificate of the TLS library what the validator works on.
fn read_certificate(cert: &X509) -> (model: Certificate)
    ensures
        model@ == certificate_model(*cert),
{
    let epoch = time_from_unix(0);
    let end = not_after(cert);
    Certificate {
        not_before: seconds_since(&epoch, not_before(cert)),
        not_after: seconds_since(&epoch, end),
        expiration_text: time_text(end),
        issuer: read_name(issuer_name(cert)),
        subject: read_name(subject_name(cert)),
        subject_alt_names: alt_names(cert),
    }
}

/// Renders a name of the TLS library as the values of its entries, in
/// their order, joined with a comma and a space. Fails with a decoding
/// failure if and only if the library cannot decode some entry's value as
/// text.
pub fn x509_name_ref_to_string(name: &X509NameRef) -> (res: Result<String, CertificateError>)
    ensures
        match rendered(name_entries(*name)) {
            Some(text) => res matches Ok(out) && out@ == text,
            None => res matches Err(error) && error.kind == ErrorKind::Encoding && error.detail@
                == undecodable_entry_message(),
        },
{
    render_name(&read_name(name))
}

/// Evaluates a certificate of the TLS library for `domain` at the present
/// instant. The outcome is the evaluation of what this certificate holds,
/// for exactly this domain, at an instant that the clock gave: the record,
/// or a decoding failure if and only if the issuer's or the subject's name
/// has an entry that is not text.
pub fn extract_and_validate(cert: &X509, domain: &str) -> (res: Result<
    ValidationResult,
    CertificateError,
>)
    ensures
        exists|now: Option<i64>|
            measured(now) && reports(
                res,
                #[trigger] validation(certificate_model(*cert), domain@, now),
            ),
{
    let model = read_certificate(cert);
    let now = current_instant();
    let res = validate_at(&model, domain, now);
    proof {
        let _ = validation(certificate_model(*cert), domain@, now);
    }
    res
}

} // verus!
