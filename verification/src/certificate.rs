//! The data of one inspection: what is read from a leaf certificate, and the
//! record of facts derived from it.

use vstd::prelude::*;

verus! {

/// What a value of the model holds, as mathematical text: each entry is the
/// decoded text of the value, or nothing where there is none.
pub open spec fn entry_views(entries: Seq<Option<String>>) -> Seq<Option<Seq<char>>> {
    Seq::new(entries.len(), |i: int| entry_view(entries[i]))
}

/// The text of one entry, if it has one.
pub open spec fn entry_view(entry: Option<String>) -> Option<Seq<char>> {
    match entry {
        Some(text) => Some(text@),
        None => None,
    }
}

/// A distinguished name, reduced to the values of its entries in the order
/// in which the certificate lists them. The attribute types are not kept.
/// An entry whose value could not be decoded as text is `None`.
#[derive(Clone, Debug)]
pub struct DistinguishedName {
    pub entries: Vec<Option<String>>,
}

impl View for DistinguishedName {
    type V = Seq<Option<Seq<char>>>;

    open spec fn view(&self) -> Seq<Option<Seq<char>>> {
        entry_views(self.entries@)
    }
}

/// What the validator reads from a leaf certificate.
#[derive(Clone, Debug)]
pub struct Certificate {
    /// The start of the validity period in seconds since the Unix epoch, or
    /// `None` where the certificate's field cannot be read as a time.
    pub not_before: Option<i64>,
    /// The end of the validity period in seconds since the Unix epoch, or
    /// `None` where the certificate's field cannot be read as a time.
    pub not_after: Option<i64>,
    /// The end of the validity period as the TLS library prints it.
    pub expiration_text: String,
    /// The issuer's distinguished name.
    pub issuer: DistinguishedName,
    /// The subject's distinguished name.
    pub subject: DistinguishedName,
    /// The entries of the subject alternative name extension, or `None` where
    /// the certificate has no such extension. A DNS entry is its name; an
    /// entry of any other kind is `None`.
    pub subject_alt_names: Option<Vec<Option<String>>>,
}

/// The mathematical value of a `Certificate`.
pub struct CertificateView {
    pub not_before: Option<i64>,
    pub not_after: Option<i64>,
    pub expiration_text: Seq<char>,
    pub issuer: Seq<Option<Seq<char>>>,
    pub subject: Seq<Option<Seq<char>>>,
    pub subject_alt_names: Option<Seq<Option<Seq<char>>>>,
}

impl View for Certificate {
    type V = CertificateView;

    open spec fn view(&self) -> CertificateView {
        CertificateView {
            not_before: self.not_before,
            not_after: self.not_after,
            expiration_text: self.expiration_text@,
            issuer: self.issuer@,
            subject: self.subject@,
            subject_alt_names: match self.subject_alt_names {
                Some(names) => Some(entry_views(names@)),
                None => None,
            },
        }
    }
}

/// The record of facts that one inspection reports.
#[derive(Clone, Debug)]
pub struct ValidationResult {
    /// Whether the certificate's validity period ends after the instant of
    /// evaluation.
    pub validity_status: bool,
    /// The end of the validity period, as text.
    pub expiration_date: String,
    /// The values of the issuer's name entries, joined with a comma and a space.
    pub issuer_details: String,
    /// The values of the subject's name entries, joined with a comma and a space.
    pub subject_details: String,
    /// Whether a DNS entry of the subject alternative names equals the
    /// requested host name.
    pub is_valid_for_domain: bool,
    /// Whether the issuer's text differs from the subject's text.
    pub is_not_self_signed: bool,
    /// Always `"Unknown"`: revocation is not looked up.
    pub revocation_status: String,
}

/// The mathematical value of a `ValidationResult`.
pub struct ValidationFacts {
    pub validity_status: bool,
    pub expiration_date: Seq<char>,
    pub issuer_details: Seq<char>,
    pub subject_details: Seq<char>,
    pub is_valid_for_domain: bool,
    pub is_not_self_signed: bool,
    pub revocation_status: Seq<char>,
}

impl View for ValidationResult {
    type V = ValidationFacts;

    open spec fn view(&self) -> ValidationFacts {
        ValidationFacts {
            validity_status: self.validity_status,
            expiration_date: self.expiration_date@,
            issuer_details: self.issuer_details@,
            subject_details: self.subject_details@,
            is_valid_for_domain: self.is_valid_for_domain,
            is_not_self_signed: self.is_not_self_signed,
            revocation_status: self.revocation_status@,
        }
    }
}

} // verus!
