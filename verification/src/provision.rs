//! The certificate provisioner: a self-signed certificate and matching
//! private key, valid for the hostnames the asset server will be reached by.
//! Failure here is fatal to the run — there is no fallback to unencrypted
//! serving.

use vstd::prelude::*;
use vstd::string::StringExecFns;

verus! {

/// A provisioned certificate and its matching private key, both PEM-encoded.
#[derive(Debug, PartialEq, Eq)]
pub struct CertificateMaterial {
    pub certificate_pem: String,
    pub private_key_pem: String,
}

/// Why provisioning was refused or failed.
#[derive(Debug, PartialEq, Eq)]
pub enum ProvisionError {
    /// No hostname was requested; a certificate for no name is useless.
    NoHostnames,
    /// The generation primitive itself failed.
    GenerationFailed { reason: String },
}

/// Relies on `rcgen::generate_simple_self_signed`: a self-signed certificate
/// and fresh subject key pair for the given subject-alternative names, read
/// out through `Certificate::pem` and `KeyPair::serialize_pem`, with the
/// error rendered through its `Display` impl. The result depends on fresh
/// key generation, so nothing is promised of its text.
#[verifier::external_body]
fn generate_self_signed(hostnames: &Vec<String>) -> (r: Result<CertificateMaterial, String>) {
    match rcgen::generate_simple_self_signed(hostnames.clone()) {
        Ok(k) => Ok(CertificateMaterial {
            certificate_pem: k.cert.pem(),
            private_key_pem: k.signing_key.serialize_pem(),
        }),
        Err(e) => Err(e.to_string()),
    }
}

/// Produce a certificate/key pair covering every requested hostname. An
/// empty hostname set is rejected here, before the generation primitive is
/// reached; any other failure is the primitive's own and carries its reason.
pub fn provision_certificate(hostnames: &Vec<String>) -> (r: Result<
    CertificateMaterial,
    ProvisionError,
>)
    ensures
        (r matches Err(e) && e is NoHostnames) <==> hostnames@.len() == 0,
        hostnames@.len() == 0 ==> !(r matches Ok(_)),
{
    if hostnames.len() == 0 {
        return Err(ProvisionError::NoHostnames);
    }
    match generate_self_signed(hostnames) {
        Ok(material) => Ok(material),
        Err(reason) => Err(ProvisionError::GenerationFailed { reason }),
    }
}

/// The hostnames the asset server is reached by: plain localhost, and the
/// loopback-resolving bridging hostname the remote sessions navigate to.
pub fn default_hostnames() -> (r: Vec<String>)
    ensures
        r@.len() == 2,
        r@[0]@ == "localhost"@,
        r@[1]@ == "bs-local.com"@,
{
    let mut r: Vec<String> = Vec::new();
    r.push(String::from_str("localhost"));
    r.push(String::from_str("bs-local.com"));
    r
}

} // verus!
