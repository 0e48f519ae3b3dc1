use vstd::prelude::*;
use crate::error::{TransportError, TransportErrorCode};
use crate::text::joined;

verus! {

/// The DER contents of each certificate section of a PEM text, in order;
/// nothing when a section is malformed.
pub uninterp spec fn pem_certificates_of(pem: Seq<u8>) -> Option<Seq<Seq<u8>>>;

/// The DER contents of each PKCS#8 private key section of a PEM text, in
/// order; nothing when a section is malformed.
pub uninterp spec fn pem_pkcs8_keys_of(pem: Seq<u8>) -> Option<Seq<Seq<u8>>>;

/// The DER contents of each PKCS#1 (RSA) private key section of a PEM text,
/// in order; nothing when a section is malformed.
pub uninterp spec fn pem_rsa_keys_of(pem: Seq<u8>) -> Option<Seq<Seq<u8>>>;

pub open spec fn der_views(v: Seq<Vec<u8>>) -> Seq<Seq<u8>> {
    v.map_values(|d: Vec<u8>| d@)
}

/// Relies on `rustls_pemfile::certs`: the certificate sections of a PEM text,
/// which depend on its bytes alone; a malformed section is an error.
#[verifier::external_body]
fn pem_certificates(pem: &[u8]) -> (r: Option<Vec<Vec<u8>>>)
    ensures
        match r {
            Some(v) => pem_certificates_of(pem@) == Some(der_views(v@)),
            None => pem_certificates_of(pem@) is None,
        },
{
    let mut reader: &[u8] = pem;
    rustls_pemfile::certs(&mut reader)
        .map(|item| item.map(|der| der.as_ref().to_vec()))
        .collect::<Result<Vec<Vec<u8>>, std::io::Error>>()
        .ok()
}

/// Relies on `rustls_pemfile::pkcs8_private_keys`: the PKCS#8 key sections of
/// a PEM text, which depend on its bytes alone; a malformed section is an error.
#[verifier::external_body]
fn pem_pkcs8_keys(pem: &[u8]) -> (r: Option<Vec<Vec<u8>>>)
    ensures
        match r {
            Some(v) => pem_pkcs8_keys_of(pem@) == Some(der_views(v@)),
            None => pem_pkcs8_keys_of(pem@) is None,
        },
{
    let mut reader: &[u8] = pem;
    rustls_pemfile::pkcs8_private_keys(&mut reader)
        .map(|item| item.map(|der| der.secret_pkcs8_der().to_vec()))
        .collect::<Result<Vec<Vec<u8>>, std::io::Error>>()
        .ok()
}

/// Relies on `rustls_pemfile::rsa_private_keys`: the PKCS#1 key sections of a
/// PEM text, which depend on its bytes alone; a malformed section is an error.
#[verifier::external_body]
fn pem_rsa_keys(pem: &[u8]) -> (r: Option<Vec<Vec<u8>>>)
    ensures
        match r {
            Some(v) => pem_rsa_keys_of(pem@) == Some(der_views(v@)),
            None => pem_rsa_keys_of(pem@) is None,
        },
{
    let mut reader: &[u8] = pem;
    rustls_pemfile::rsa_private_keys(&mut reader)
        .map(|item| item.map(|der| der.secret_pkcs1_der().to_vec()))
        .collect::<Result<Vec<Vec<u8>>, std::io::Error>>()
        .ok()
}

/// A private key in DER, with its encoding.
#[derive(Debug)]
pub enum PrivateKey {
    Pkcs8(Vec<u8>),
    Pkcs1(Vec<u8>),
}

/// A certificate chain and the private key that goes with it, in DER.
#[derive(Debug)]
pub struct TlsMaterial {
    pub cert_chain: Vec<Vec<u8>>,
    pub key: PrivateKey,
}

/// TLS settings of an HTTP/2 server.
#[derive(Debug, Clone)]
pub enum TlsConfig {
    /// A certificate chain and a PKCS#8 key, each in a PEM file.
    Manual { cert_path: String, key_path: String },
    /// Certificates obtained and renewed through ACME.
    Acme {
        domains: Vec<String>,
        contact_email: String,
        /// Where certificates are kept; `.certificates` when absent.
        cache_dir: Option<String>,
        /// Whether to use the certificate authority's staging directory.
        use_staging: bool,
    },
}

pub open spec fn configuration_error(r: TransportError) -> bool {
    r.code == TransportErrorCode::ConfigurationError
}

fn config_error(text: &str) -> (r: TransportError)
    ensures
        configuration_error(r),
{
    TransportError::with_text(TransportErrorCode::ConfigurationError, text)
}

/// The chain of a server certificate file: the file must have been read and
/// hold at least one well-formed certificate.
pub open spec fn chain_of(pem: Option<Vec<u8>>) -> Option<Seq<Seq<u8>>> {
    match pem {
        Some(p) => match pem_certificates_of(p@) {
            Some(c) => if c.len() > 0 {
                Some(c)
            } else {
                None
            },
            None => None,
        },
        None => None,
    }
}

fn certificate_chain(pem: Option<Vec<u8>>, what: &str) -> (r: Result<Vec<Vec<u8>>, TransportError>)
    ensures
        match chain_of(pem) {
            Some(c) => r matches Ok(v) && der_views(v@) == c,
            None => r matches Err(e) && configuration_error(e),
        },
{
    let pem = match pem {
        Some(p) => p,
        None => {
            return Err(config_error("failed to open certificate file"));
        },
    };
    match pem_certificates(pem.as_slice()) {
        Some(certs) => {
            if certs.len() == 0 {
                Err(config_error("no certificates found in the certificate file"))
            } else {
                Ok(certs)
            }
        },
        None => Err(
            TransportError::new(
                TransportErrorCode::ConfigurationError,
                joined("failed to parse certificate file: ", what),
            ),
        ),
    }
}

/// The first PKCS#8 key of a key file that was read and is well formed.
pub open spec fn pkcs8_key_of(pem: Option<Vec<u8>>) -> Option<Seq<u8>> {
    match pem {
        Some(p) => match pem_pkcs8_keys_of(p@) {
            Some(k) => if k.len() > 0 {
                Some(k[0])
            } else {
                None
            },
            None => None,
        },
        None => None,
    }
}

/// The material of a server with a manual certificate: the certificate
/// file's chain and the first PKCS#8 key of the key file. `None` stands for a
/// file that could not be read. A missing file, a malformed one, an empty
/// chain and a key file without a PKCS#8 key are each a `ConfigurationError`.
pub fn manual_tls_material(cert_pem: Option<Vec<u8>>, key_pem: Option<Vec<u8>>) -> (r: Result<
    TlsMaterial,
    TransportError,
>)
    ensures
        match (chain_of(cert_pem), pkcs8_key_of(key_pem)) {
            (Some(c), Some(k)) => r matches Ok(m) && der_views(m.cert_chain@) == c
                && (m.key matches PrivateKey::Pkcs8(d) && d@ == k),
            _ => r matches Err(e) && configuration_error(e),
        },
{
    let chain = certificate_chain(cert_pem, "server certificate")?;
    let key_pem = match key_pem {
        Some(p) => p,
        None => {
            return Err(config_error("failed to open key file"));
        },
    };
    let mut keys = match pem_pkcs8_keys(key_pem.as_slice()) {
        Some(k) => k,
        None => {
            return Err(config_error("failed to parse key file"));
        },
    };
    if keys.len() == 0 {
        return Err(config_error("no private keys found"));
    }
    let key = keys.remove(0);
    Ok(TlsMaterial { cert_chain: chain, key: PrivateKey::Pkcs8(key) })
}

/// The key of a client certificate: the first PKCS#8 key of the key file, or
/// when it has none, its first RSA key.
pub open spec fn client_key_of(pem: Option<Vec<u8>>) -> Option<PrivateKeyView> {
    match pem {
        Some(p) => match pem_pkcs8_keys_of(p@) {
            Some(k) => if k.len() > 0 {
                Some(PrivateKeyView::Pkcs8(k[0]))
            } else {
                match pem_rsa_keys_of(p@) {
                    Some(rsa) => if rsa.len() > 0 {
                        Some(PrivateKeyView::Pkcs1(rsa[0]))
                    } else {
                        None
                    },
                    None => None,
                }
            },
            None => None,
        },
        None => None,
    }
}

/// A private key's encoding and DER bytes.
pub ghost enum PrivateKeyView {
    Pkcs8(Seq<u8>),
    Pkcs1(Seq<u8>),
}

impl PrivateKey {
    pub open spec fn view(self) -> PrivateKeyView {
        match self {
            PrivateKey::Pkcs8(d) => PrivateKeyView::Pkcs8(d@),
            PrivateKey::Pkcs1(d) => PrivateKeyView::Pkcs1(d@),
        }
    }
}

/// The material of a client certificate for mutual TLS: the certificate
/// file's chain and the key of the key file, PKCS#8 or else RSA. A missing or
/// malformed file, an empty chain and a key file without a key are each a
/// `ConfigurationError`.
pub fn client_tls_material(cert_pem: Option<Vec<u8>>, key_pem: Option<Vec<u8>>) -> (r: Result<
    TlsMaterial,
    TransportError,
>)
    ensures
        match (chain_of(cert_pem), client_key_of(key_pem)) {
            (Some(c), Some(k)) => r matches Ok(m) && der_views(m.cert_chain@) == c
                && m.key.view() == k,
            _ => r matches Err(e) && configuration_error(e),
        },
{
    let chain = certificate_chain(cert_pem, "client certificate")?;
    let key_pem = match key_pem {
        Some(p) => p,
        None => {
            return Err(config_error("failed to open client key file"));
        },
    };
    let mut keys = match pem_pkcs8_keys(key_pem.as_slice()) {
        Some(k) => k,
        None => {
            return Err(config_error("failed to parse client key"));
        },
    };
    if keys.len() > 0 {
        let key = keys.remove(0);
        return Ok(TlsMaterial { cert_chain: chain, key: PrivateKey::Pkcs8(key) });
    }
    let mut rsa = match pem_rsa_keys(key_pem.as_slice()) {
        Some(k) => k,
        None => {
            return Err(config_error("failed to parse client key as RSA"));
        },
    };
    if rsa.len() == 0 {
        return Err(config_error("no private keys found in the client key file"));
    }
    let key = rsa.remove(0);
    Ok(TlsMaterial { cert_chain: chain, key: PrivateKey::Pkcs1(key) })
}

/// The root certificates of a client's custom TLS setting: the file must have
/// been read and hold at least one well-formed certificate.
pub fn root_certificates(pem: Option<Vec<u8>>) -> (r: Result<Vec<Vec<u8>>, TransportError>)
    ensures
        match chain_of(pem) {
            Some(c) => r matches Ok(v) && der_views(v@) == c,
            None => r matches Err(e) && configuration_error(e),
        },
{
    certificate_chain(pem, "root certificate")
}

/// How a server obtains certificates through ACME.
#[derive(Debug)]
pub struct AcmePlan {
    pub domains: Vec<String>,
    /// The contact address, as a `mailto:` URL.
    pub contact: String,
    pub cache_dir: String,
    pub use_staging: bool,
}

/// The ACME plan of a setting: its domains, `mailto:` and the contact
/// address, its cache directory or `.certificates`, and its directory choice.
pub fn acme_plan(
    domains: Vec<String>,
    contact_email: &str,
    cache_dir: Option<String>,
    use_staging: bool,
) -> (r: AcmePlan)
    ensures
        r.domains == domains,
        r.contact@ == "mailto:"@ + contact_email@,
        r.cache_dir@ == (match cache_dir {
            Some(d) => d@,
            None => ".certificates"@,
        }),
        r.use_staging == use_staging,
{
    let dir = match cache_dir {
        Some(d) => d,
        None => String::from_str(".certificates"),
    };
    AcmePlan { domains, contact: joined("mailto:", contact_email), cache_dir: dir, use_staging }
}

/// The application protocols a TLS server advertises: HTTP/2 alone, `h2`.
pub fn server_alpn_protocols() -> (r: Vec<Vec<u8>>)
    ensures
        r@.len() == 1,
        r@[0]@ == seq![104u8, 50u8],
{
    let mut h2: Vec<u8> = Vec::new();
    h2.push(104u8);
    h2.push(50u8);
    let mut protocols: Vec<Vec<u8>> = Vec::new();
    protocols.push(h2);
    proof {
        assert(protocols@[0]@ =~= seq![104u8, 50u8]);
    }
    protocols
}

} // verus!
