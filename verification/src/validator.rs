//! The validator: the facts derived from a certificate and a host name.

use vstd::prelude::*;
use vstd::string::StringExecFns;
use crate::certificate::{
    entry_views, Certificate, CertificateView, DistinguishedName, ValidationFacts,
    ValidationResult,
};
use crate::error::{undecodable_entry_message, CertificateError, ErrorKind};

verus! {

/// The text between two entry values of a rendered name.
pub open spec fn separator() -> Seq<char> {
    ", "@
}

/// The revocation status that every record carries.
pub open spec fn unknown_revocation() -> Seq<char> {
    "Unknown"@
}

/// The parts in their order, with `between` between each two neighbours.
pub open spec fn joined(parts: Seq<Seq<char>>, between: Seq<char>) -> Seq<char>
    decreases parts.len(),
{
    if parts.len() == 0 {
        Seq::empty()
    } else if parts.len() == 1 {
        parts[0]
    } else {
        joined(parts.drop_last(), between) + between + parts.last()
    }
}

/// Whether every entry of the name has a value that is text.
pub open spec fn decodable(name: Seq<Option<Seq<char>>>) -> bool {
    forall|i: int| 0 <= i < name.len() ==> (#[trigger] name[i]) is Some
}

/// The values of the entries of a decodable name.
pub open spec fn values(name: Seq<Option<Seq<char>>>) -> Seq<Seq<char>> {
    Seq::new(name.len(), |i: int| name[i].unwrap())
}

/// The text of a name: the values of its entries in their order, joined with
/// a comma and a space; nothing where an entry's value is not text.
pub open spec fn rendered(name: Seq<Option<Seq<char>>>) -> Option<Seq<char>> {
    if decodable(name) {
        Some(joined(values(name), separator()))
    } else {
        None
    }
}

/// Whether the alternative names are present and one of them is a DNS entry
/// that equals `host` character for character.
pub open spec fn names_host(alt_names: Option<Seq<Option<Seq<char>>>>, host: Seq<char>) -> bool {
    alt_names matches Some(names) && exists|i: int|
        0 <= i < names.len() && #[trigger] names[i] == Some(host)
}

/// Whether the validity period is known to end strictly after the instant `now`.
pub open spec fn unexpired(not_after: Option<i64>, now: Option<i64>) -> bool {
    not_after matches Some(end) && now matches Some(instant) && end > instant
}

/// The outcome of evaluating `cert` for `host` at the instant `now`: the
/// record of facts, or a decoding failure where the issuer's or the
/// subject's name has an entry that is not text.
pub open spec fn validation(cert: CertificateView, host: Seq<char>, now: Option<i64>) -> Result<
    ValidationFacts,
    ErrorKind,
> {
    match (rendered(cert.issuer), rendered(cert.subject)) {
        (Some(issuer), Some(subject)) => Ok(
            ValidationFacts {
                validity_status: unexpired(cert.not_after, now),
                expiration_date: cert.expiration_text,
                issuer_details: issuer,
                subject_details: subject,
                is_valid_for_domain: names_host(cert.subject_alt_names, host),
                is_not_self_signed: issuer != subject,
                revocation_status: unknown_revocation(),
            },
        ),
        _ => Err(ErrorKind::Encoding),
    }
}

/// Whether `res` is the outcome `expected`: the same record, or a failure of
/// the same kind with the message for an entry that is not text.
pub open spec fn reports(
    res: Result<ValidationResult, CertificateError>,
    expected: Result<ValidationFacts, ErrorKind>,
) -> bool {
    match expected {
        Ok(facts) => res matches Ok(record) && record@ == facts,
        Err(kind) => res matches Err(error) && error.kind == kind && error.detail@
            == undecodable_entry_message(),
    }
}

proof fn lemma_joined_step(parts: Seq<Seq<char>>, between: Seq<char>, i: int)
    requires
        0 <= i < parts.len(),
    ensures
        joined(parts.take(i + 1), between) == if i == 0 {
            parts[0]
        } else {
            joined(parts.take(i), between) + between + parts[i]
        },
{
    let prefix = parts.take(i + 1);
    assert(prefix.last() == parts[i]);
    assert(prefix.drop_last() =~= parts.take(i));
    assert(prefix[0] == parts[0]);
}

/// Renders a distinguished name as the values of its entries, in their
/// order, joined with a comma and a space. Fails with a decoding failure if
/// and only if some entry's value is not text.
pub fn render_name(name: &DistinguishedName) -> (res: Result<String, CertificateError>)
    ensures
        match rendered(name@) {
            Some(text) => res matches Ok(out) && out@ == text,
            None => res matches Err(error) && error.kind == ErrorKind::Encoding && error.detail@
                == undecodable_entry_message(),
        },
{
    let mut out = String::new();
    let len = name.entries.len();
    let mut i: usize = 0;
    while i < len
        invariant
            i <= len,
            len == name.entries@.len(),
            name@.len() == len,
            forall|j: int| 0 <= j < i ==> (#[trigger] name@[j]) is Some,
            out@ == joined(values(name@).take(i as int), separator()),
        decreases len - i,
    {
        match &name.entries[i] {
            Some(value) => {
                proof {
                    lemma_joined_step(values(name@), separator(), i as int);
                    assert(name@[i as int] == Some(value@));
                }
                if i > 0 {
                    out.append(", ");
                }
                out.append(value.as_str());
            },
            None => {
                assert(name@[i as int] is None);
                return Err(
                    CertificateError::new(ErrorKind::Encoding, "Name entry is not valid text"),
                );
            },
        }
        i += 1;
    }
    assert(values(name@).take(len as int) =~= values(name@));
    Ok(out)
}

/// Tells whether the subject alternative names are present and hold a DNS
/// entry equal to `host`, character for character. There is no wildcard
/// matching and no recourse to the subject's name.
pub fn matches_host(alt_names: &Option<Vec<Option<String>>>, host: &str) -> (found: bool)
    ensures
        found == names_host(
            match *alt_names {
                Some(names) => Some(entry_views(names@)),
                None => None,
            },
            host@,
        ),
{
    match alt_names {
        None => false,
        Some(names) => {
            let wanted = String::from_str(host);
            let len = names.len();
            let mut i: usize = 0;
            while i < len
                invariant
                    i <= len,
                    len == names@.len(),
                    wanted@ == host@,
                    *alt_names == Some(*names),
                    forall|j: int| 0 <= j < i ==> (#[trigger] entry_views(names@)[j]) != Some(host@),
                decreases len - i,
            {
                match &names[i] {
                    Some(name) => {
                        if *name == wanted {
                            assert(entry_views(names@)[i as int] == Some(host@));
                            return true;
                        }
                    },
                    None => {},
                }
                i += 1;
            }
            false
        },
    }
}

/// Tells whether the validity period is known to end strictly after `now`.
pub fn is_unexpired(not_after: Option<i64>, now: Option<i64>) -> (valid: bool)
    ensures
        valid == unexpired(not_after, now),
{
    match (not_after, now) {
        (Some(end), Some(instant)) => end > instant,
        _ => false,
    }
}

/// Evaluates `cert` for `host` at the instant `now`, given in seconds since
/// the Unix epoch, or `None` where the clock could not be read.
///
/// The record reports whether the validity period ends strictly after `now`
/// (its start plays no part), the end of the period as text, the issuer's
/// and the subject's names as text, whether a DNS alternative name equals
/// `host` exactly, whether the two names differ as text, and a revocation
/// status that is always `"Unknown"`. The evaluation fails, with a decoding
/// failure, if and only if one of the two names has an entry that is not
/// text.
pub fn validate_at(cert: &Certificate, host: &str, now: Option<i64>) -> (res: Result<
    ValidationResult,
    CertificateError,
>)
    ensures
        reports(res, validation(cert@, host@, now)),
{
    let validity_status = is_unexpired(cert.not_after, now);
    let expiration_date = cert.expiration_text.clone();
    let issuer_details = match render_name(&cert.issuer) {
        Ok(text) => text,
        Err(error) => {
            return Err(error);
        },
    };
    let subject_details = match render_name(&cert.subject) {
        Ok(text) => text,
        Err(error) => {
            return Err(error);
        },
    };
    let is_valid_for_domain = matches_host(&cert.subject_alt_names, host);
    let is_not_self_signed = !(issuer_details == subject_details);
    let revocation_status = String::from_str("Unknown");
    Ok(
        ValidationResult {
            validity_status,
            expiration_date,
            issuer_details,
            subject_details,
            is_valid_for_domain,
            is_not_self_signed,
            revocation_status,
        },
    )
}

/// The validity status is true if and only if the end of the validity period
/// is strictly later than the instant of evaluation: an end at that very
/// instant, or before it, gives false.
pub proof fn lemma_validity_is_expiry_after_now(
    cert: CertificateView,
    host: Seq<char>,
    end: i64,
    now: i64,
)
    requires
        cert.not_after == Some(end),
    ensures
        validation(cert, host, Some(now)) matches Ok(facts) ==> (facts.validity_status <==> end
            > now),
{
}

/// The start of the validity period plays no part in the outcome: a
/// certificate that is not yet valid is reported like one that is.
pub proof fn lemma_not_before_is_irrelevant(
    cert: CertificateView,
    other_start: Option<i64>,
    host: Seq<char>,
    now: Option<i64>,
)
    ensures
        validation(CertificateView { not_before: other_start, ..cert }, host, now) == validation(
            cert,
            host,
            now,
        ),
{
}

/// A certificate is valid for the host if and only if its alternative names
/// are present and hold a DNS entry that equals the host name exactly.
/// Without the extension the answer is false, whatever the subject's name
/// holds.
pub proof fn lemma_domain_match_is_an_exact_alt_name(
    cert: CertificateView,
    host: Seq<char>,
    now: Option<i64>,
)
    ensures
        validation(cert, host, now) matches Ok(facts) ==> (facts.is_valid_for_domain <==> (
        cert.subject_alt_names matches Some(names) && names.contains(Some(host)))),
        validation(cert, host, now) matches Ok(facts) ==> (cert.subject_alt_names is None
            ==> !facts.is_valid_for_domain),
{
    if let Some(names) = cert.subject_alt_names {
        if names.contains(Some(host)) {
            let i = choose|i: int| 0 <= i < names.len() && names[i] == Some(host);
            assert(names[i] == Some(host));
        }
    }
}

/// The record says "not self-signed" exactly when the issuer's text differs
/// from the subject's text.
pub proof fn lemma_self_signed_is_equal_text(
    cert: CertificateView,
    host: Seq<char>,
    now: Option<i64>,
)
    ensures
        validation(cert, host, now) matches Ok(facts) ==> (!facts.is_not_self_signed <==> rendered(
            cert.issuer,
        ) == rendered(cert.subject)),
        validation(cert, host, now) matches Ok(facts) ==> facts.issuer_details == rendered(
            cert.issuer,
        ).unwrap() && facts.subject_details == rendered(cert.subject).unwrap(),
{
}

/// Every record carries the revocation status `"Unknown"`.
pub proof fn lemma_revocation_is_unknown(cert: CertificateView, host: Seq<char>, now: Option<i64>)
    ensures
        validation(cert, host, now) matches Ok(facts) ==> facts.revocation_status == "Unknown"@,
{
}

} // verus!
