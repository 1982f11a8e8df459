//! The host whose certificate is inspected.

use vstd::prelude::*;
use vstd::string::StringExecFns;
use vstd::string::StrSliceExecFns;
use crate::error::{unresolved_message, CertificateError, ErrorKind};

verus! {

/// The TCP port on which every target host is contacted.
pub const TLS_PORT: u16 = 443;

/// The text that follows a host name in its network address.
pub open spec fn port_suffix() -> Seq<char> {
    ":443"@
}

/// The network address of a host name: the name, a colon and the TLS port.
pub open spec fn address_of(name: Seq<char>) -> Seq<char> {
    name + port_suffix()
}

/// A host name can be handed to the resolver and to the TLS library only if
/// it holds no NUL character.
pub open spec fn resolvable(name: Seq<char>) -> bool {
    !name.contains('\0')
}

/// Tells whether `text` holds a NUL character.
pub fn contains_nul(text: &str) -> (found: bool)
    ensures
        found == text@.contains('\0'),
{
    let len = text.unicode_len();
    let mut i: usize = 0;
    while i < len
        invariant
            i <= len,
            len == text@.len(),
            forall|j: int| 0 <= j < i ==> text@[j] != '\0',
        decreases len - i,
    {
        if text.get_char(i) == '\0' {
            return true;
        }
        i += 1;
    }
    false
}

/// A target of inspection: a host name, contacted on the fixed TLS port.
pub struct TargetHost {
    name: String,
}

impl View for TargetHost {
    type V = Seq<char>;

    closed spec fn view(&self) -> Seq<char> {
        self.name@
    }
}

impl TargetHost {
    #[verifier::type_invariant]
    spec fn well_formed(self) -> bool {
        resolvable(self.name@)
    }

    /// Accepts `name` as a target unless it holds a NUL character, which no
    /// resolver can look up.
    pub fn new(name: &str) -> (res: Result<TargetHost, CertificateError>)
        ensures
            res is Ok <==> resolvable(name@),
            res matches Ok(host) ==> host@ == name@,
            res matches Err(error) ==> error.kind == ErrorKind::Resolution && error.detail@
                == unresolved_message(),
    {
        if contains_nul(name) {
            Err(CertificateError::new(ErrorKind::Resolution, "Unable to resolve domain"))
        } else {
            Ok(TargetHost { name: String::from_str(name) })
        }
    }

    /// Returns the host name, which holds no NUL character.
    pub fn name(&self) -> (name: &str)
        ensures
            name@ == self@,
            resolvable(name@),
    {
        proof {
            use_type_invariant(self);
        }
        self.name.as_str()
    }

    /// Returns the port on which the host is contacted.
    pub fn port(&self) -> (port: u16)
        ensures
            port == TLS_PORT,
    {
        TLS_PORT
    }

    /// Returns the address handed to the resolver: the name, a colon and the port.
    pub fn address(&self) -> (address: String)
        ensures
            address@ == address_of(self@),
    {
        let address = String::from_str(self.name.as_str());
        address.concat(":443")
    }
}

} // verus!
