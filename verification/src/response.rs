//! What the caller of an inspection is told: the record, or a failure
//! sorted into its class.

use vstd::prelude::*;
use vstd::string::StringExecFns;
use crate::certificate::ValidationResult;
use crate::error::{CertificateError, ErrorClass};

verus! {

/// The status that accompanies a record.
pub const STATUS_OK: u16 = 200;

/// The status of a failure to obtain the certificate.
pub const STATUS_BAD_REQUEST: u16 = 400;

/// The status of a failure to evaluate the certificate.
pub const STATUS_INTERNAL_SERVER_ERROR: u16 = 500;

/// The status that reports a failure of the given class.
pub open spec fn status_for(class: ErrorClass) -> u16 {
    match class {
        ErrorClass::Acquisition => STATUS_BAD_REQUEST,
        ErrorClass::Evaluation => STATUS_INTERNAL_SERVER_ERROR,
    }
}

/// The words that introduce the message of a failure of the given class.
pub open spec fn preamble_for(class: ErrorClass) -> Seq<char> {
    match class {
        ErrorClass::Acquisition => "Error fetching certificate: "@,
        ErrorClass::Evaluation => "Validation error: "@,
    }
}

/// The answer to one request.
#[derive(Debug)]
pub enum Reply {
    /// The inspection succeeded: the record is reported with `STATUS_OK`.
    Record(ValidationResult),
    /// The inspection failed: the status tells the class of the failure and
    /// the body describes it.
    Failure { status: u16, body: String },
}

impl Reply {
    /// The status of a reply.
    pub open spec fn spec_status(self) -> u16 {
        match self {
            Reply::Record(_) => STATUS_OK,
            Reply::Failure { status, .. } => status,
        }
    }

    /// Returns the status of this reply.
    pub fn status(&self) -> (status: u16)
        ensures
            status == self.spec_status(),
    {
        match self {
            Reply::Record(_) => STATUS_OK,
            Reply::Failure { status, .. } => *status,
        }
    }
}

/// Whether `reply` answers `outcome`: the record itself, or the status of
/// the failure's class with the class's preamble before the failure's message.
pub open spec fn replies_to(reply: Reply, outcome: Result<ValidationResult, CertificateError>) -> bool {
    match outcome {
        Ok(record) => reply == Reply::Record(record),
        Err(error) => reply matches Reply::Failure { status, body } && status == status_for(
            error.kind.spec_class(),
        ) && body@ == preamble_for(error.kind.spec_class()) + error.detail@,
    }
}

/// Turns the outcome of an inspection into the answer for the caller. A
/// failure to obtain the certificate is the caller's to mend and answered as
/// a bad request; a failure to evaluate it is an internal fault.
pub fn reply_to(outcome: Result<ValidationResult, CertificateError>) -> (reply: Reply)
    ensures
        replies_to(reply, outcome),
{
    match outcome {
        Ok(record) => Reply::Record(record),
        Err(error) => {
            match error.class() {
                ErrorClass::Acquisition => {
                    let body = String::from_str("Error fetching certificate: ");
                    Reply::Failure {
                        status: STATUS_BAD_REQUEST,
                        body: body.concat(error.detail.as_str()),
                    }
                },
                ErrorClass::Evaluation => {
                    let body = String::from_str("Validation error: ");
                    Reply::Failure {
                        status: STATUS_INTERNAL_SERVER_ERROR,
                        body: body.concat(error.detail.as_str()),
                    }
                },
            }
        },
    }
}

} // verus!
