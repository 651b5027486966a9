//! Trust set-up for the QUIC client: which certificate file is trusted, what
//! becomes of the attempt to read it, and installing it as the client's
//! certificate authority.

use vstd::prelude::*;

verus! {

/// A DER certificate of `quinn`.
#[verifier::external_type_specification]
#[verifier::external_body]
pub struct ExCertificate(quinn::Certificate);

/// A QUIC client configuration under construction (a
/// `quinn::ClientConfigBuilder`), holding the trust anchors of the
/// certificate authorities it trusts. The program builds it and takes it
/// back through the public field.
#[verifier::external_body]
pub struct ClientConfig {
    pub builder: quinn::ClientConfigBuilder,
}

/// The DER bytes a certificate holds (what `quinn::Certificate::as_der`
/// gives back).
pub uninterp spec fn certificate_der(c: quinn::Certificate) -> Seq<u8>;

/// The trust anchors a configuration holds, in the order they were added.
pub uninterp spec fn trusted_anchors(c: ClientConfig) -> Seq<Seq<u8>>;

/// The trust anchor extracted from a DER certificate, as kept by the
/// configuration.
pub uninterp spec fn anchor_of(der: Seq<u8>) -> Seq<u8>;

/// Whether these DER bytes are accepted as a trust anchor, as
/// `quinn::ClientConfigBuilder::add_certificate_authority` decides it (a
/// parse of the bytes alone).
pub uninterp spec fn accepted_as_authority(der: Seq<u8>) -> bool;

/// Where the trusted certificate is read from.
#[derive(Debug, Clone, PartialEq, Eq)]
pub enum CertSource {
    /// The file that the `ca` option names (the bytes of its path).
    Given(Vec<u8>),
    /// The file `cert.der` in the local data directory of the
    /// `arg`/`quinn`/`quinn-examples` project.
    LocalDataDir,
}

/// What reading the certificate file gave.
#[derive(Debug, Clone)]
pub enum CertRead {
    /// The file's bytes.
    Bytes(Vec<u8>),
    /// The file does not exist; the text is the reader's error message.
    NotFound(String),
    /// Any other read failure, with its message.
    Failed(String),
}

/// Why no certificate could be trusted.
#[derive(Debug, Clone)]
pub enum SecurityError {
    /// The certificate file could not be read.
    Unreadable { source: CertSource, missing: bool, cause: String },
    /// The bytes were refused as a certificate authority.
    Malformed(String),
}

/// Whether `source` is the one that the `ca` option selects.
pub open spec fn is_source_of(source: CertSource, ca: Option<Vec<u8>>) -> bool {
    match (source, ca) {
        (CertSource::Given(p), Some(q)) => p@ == q@,
        (CertSource::LocalDataDir, None) => true,
        _ => false,
    }
}

/// The name of the certificate file in the local data directory.
pub fn local_certificate_file() -> (name: String)
    ensures
        name@ == "cert.der"@,
{
    String::from_str("cert.der")
}

/// The certificate file to read: the one that `ca` names, else the local one.
pub fn certificate_source(ca: &Option<Vec<u8>>) -> (source: CertSource)
    ensures
        is_source_of(source, *ca),
{
    match ca {
        Some(path) => CertSource::Given(path.clone()),
        None => CertSource::LocalDataDir,
    }
}

/// `quinn::Certificate::from_der`: in the version used here it wraps a copy
/// of the bytes and never fails.
#[verifier::external_body]
fn certificate_from_der(der: &[u8]) -> (r: Result<quinn::Certificate, String>)
    ensures
        r is Ok,
        certificate_der(r->Ok_0) == der@,
{
    quinn::Certificate::from_der(der).map_err(|e| format!("{}", e))
}

/// `quinn::ClientConfigBuilder::add_certificate_authority`: succeeds exactly
/// when the certificate's bytes are accepted as a trust anchor, and then
/// appends that anchor to the configuration's trust anchors; on failure the
/// configuration is left as it was. That its other settings stay as they
/// were on success is not stated.
#[verifier::external_body]
fn add_certificate_authority(config: &mut ClientConfig, cert: quinn::Certificate) -> (r: Result<(), String>)
    ensures
        r is Ok <==> accepted_as_authority(certificate_der(cert)),
        r is Err ==> *final(config) == *old(config),
        r is Ok ==> trusted_anchors(*final(config)) == trusted_anchors(*old(config)).push(
            anchor_of(certificate_der(cert)),
        ),
{
    config.builder.add_certificate_authority(cert).map(|_| ()).map_err(|e| format!("{}", e))
}

/// Installs the certificate read from the file that `certificate_source(path)`
/// names as the authority `client_config` trusts.
///
/// Bytes that were read are trusted exactly when they are accepted as a
/// trust anchor, else the error is `Malformed`; a failed read gives
/// `Unreadable` with the source, whether the file was missing, and the
/// reader's message. Whenever it fails, the configuration is unchanged.
pub fn setup_security(client_config: &mut ClientConfig, path: &Option<Vec<u8>>, read: CertRead) -> (r: Result<(), SecurityError>)
    ensures
        r is Err ==> *final(client_config) == *old(client_config),
        match read {
            CertRead::Bytes(der) => {
                &&& (r is Ok <==> accepted_as_authority(der@))
                &&& (r is Err ==> r->Err_0 is Malformed)
                &&& (r is Ok ==> trusted_anchors(*final(client_config)) == trusted_anchors(
                    *old(client_config),
                ).push(anchor_of(der@)))
            },
            CertRead::NotFound(cause) => r matches Err(SecurityError::Unreadable { source, missing, cause: c })
                && is_source_of(source, *path) && missing && c == cause,
            CertRead::Failed(cause) => r matches Err(SecurityError::Unreadable { source, missing, cause: c })
                && is_source_of(source, *path) && !missing && c == cause,
        },
{
    match read {
        CertRead::Bytes(der) => match certificate_from_der(der.as_slice()) {
            Ok(cert) => match add_certificate_authority(client_config, cert) {
                Ok(()) => Ok(()),
                Err(e) => Err(SecurityError::Malformed(e)),
            },
            Err(e) => Err(SecurityError::Malformed(e)),
        },
        CertRead::NotFound(cause) => Err(
            SecurityError::Unreadable { source: certificate_source(path), missing: true, cause },
        ),
        CertRead::Failed(cause) => Err(
            SecurityError::Unreadable { source: certificate_source(path), missing: false, cause },
        ),
    }
}

} // verus!
