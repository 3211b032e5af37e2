//! Which certificates a new transport trusts.

use vstd::prelude::*;
use vstd::string::*;

verus! {

/// The roots that a transport trusts.
#[derive(Clone, Copy, Debug, PartialEq, Eq, Structural)]
pub enum TrustStore {
    /// The certificate store of the operating system.
    Native,
    /// The set of roots that is compiled in.
    Bundled,
}

/// What the variable that names a CA bundle holds, and what was found there.
#[derive(Clone, Debug, PartialEq, Eq)]
pub struct CertFile {
    /// The path, as it is to be shown.
    pub path: String,
    /// Whether a file exists at the path.
    pub exists: bool,
}

/// Whether a CA bundle is named and there.
pub open spec fn ca_bundle_found(cert: Option<CertFile>) -> bool {
    cert matches Some(file) && file.exists
}

/// The roots to trust: the operating system's where that was asked for or a
/// CA bundle is named and there, the compiled-in ones otherwise.
pub open spec fn trust_store_of(native_tls: bool, cert: Option<CertFile>) -> TrustStore {
    if native_tls || ca_bundle_found(cert) {
        TrustStore::Native
    } else {
        TrustStore::Bundled
    }
}

/// The warning on a CA bundle that is named and not there.
pub open spec fn missing_cert_message(path: Seq<char>) -> Seq<char> {
    "Ignoring invalid `SSL_CERT_FILE`. File does not exist: "@ + path + "."@
}

/// The warning that the probe of the CA bundle raises: none, unless one is
/// named and not there.
pub open spec fn cert_warning(cert: Option<CertFile>) -> Option<Seq<char>> {
    match cert {
        Some(file) if !file.exists => Some(missing_cert_message(file.path@)),
        _ => None,
    }
}

/// The roots to trust, and the warning to raise with the choice.
#[derive(Debug, PartialEq, Eq)]
pub struct TrustDecision {
    pub store: TrustStore,
    pub warning: Option<String>,
}

/// Chooses the roots that a new transport trusts. A CA bundle that is named
/// and not there counts as not named, and a warning is due.
pub fn choose_trust(native_tls: bool, cert: &Option<CertFile>) -> (r: TrustDecision)
    ensures
        r.store == trust_store_of(native_tls, *cert),
        r.warning is Some <==> cert_warning(*cert) is Some,
        r.warning matches Some(message) ==> cert_warning(*cert) == Some(message@),
{
    let mut found = false;
    let mut warning: Option<String> = None;
    if let Some(file) = cert {
        if file.exists {
            found = true;
        } else {
            let mut message = String::from_str(
                "Ignoring invalid `SSL_CERT_FILE`. File does not exist: ",
            );
            message.append(file.path.as_str());
            message.append(".");
            warning = Some(message);
        }
    }
    let store = if native_tls || found {
        TrustStore::Native
    } else {
        TrustStore::Bundled
    };
    TrustDecision { store, warning }
}

} // verus!
