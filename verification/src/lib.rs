//! Inspection of the TLS certificate that a remote host presents.
//!
//! The crate is split along the stages of one inspection: a connector that
//! decides how a TLS session is opened, a fetcher that takes the leaf
//! certificate out of the session, and a validator that derives a fixed
//! record of facts from the certificate and the requested host name.

pub mod certificate;
pub mod connector;
pub mod error;
pub mod extraction;
pub mod fetcher;
pub mod response;
pub mod target;
pub mod validator;
