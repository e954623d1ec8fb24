//! Trust-store decisions: which files in the custom certificate directory
//! are loadable, classified by extension. Reading the files and handing
//! them to the HTTP client stays with the embedding layer.

use vstd::prelude::*;
use crate::http::str_eq;

verus! {

/// The encodings a custom root certificate may be stored in.
#[derive(Clone, Copy, Debug, PartialEq, Eq)]
pub enum CertificateKind {
    Pem,
    Der,
}

/// Classifies a candidate certificate file by its extension: exactly the
/// extensions "pem" and "der" are loadable, anything else — including a
/// missing extension — is rejected.
pub fn kind_from_extension(ext: Option<&str>) -> (r: Option<CertificateKind>)
    ensures
        match r {
            Some(CertificateKind::Pem) => ext matches Some(e) && e@ == "pem"@,
            Some(CertificateKind::Der) => ext matches Some(e) && e@ == "der"@,
            None => match ext {
                Some(e) => e@ != "pem"@ && e@ != "der"@,
                None => true,
            },
        },
{
    match ext {
        Some(e) => {
            if str_eq(e, "pem") {
                Some(CertificateKind::Pem)
            } else if str_eq(e, "der") {
                Some(CertificateKind::Der)
            } else {
                None
            }
        },
        None => None,
    }
}

} // verus!
