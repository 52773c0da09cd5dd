//! TLS setup: from PEM files and settings to rustls configurations.
//!
//! Files are read elsewhere; this module gets what reading them gave.
//!
//! The cryptography comes from the provider that the process has installed, or
//! from aws-lc-rs where it has installed none. What a configuration is made from
//! is fixed either way. What becomes of it is fixed for aws-lc-rs only: another
//! provider may take other keys and suites.

use vstd::prelude::*;
use vstd::string::*;

use std::sync::Arc;

use rustls::crypto::aws_lc_rs::default_provider;
use rustls::crypto::CryptoProvider;
use rustls::pki_types::CertificateDer;
use rustls::pki_types::PrivateKeyDer;
use rustls::server::WebPkiClientVerifier;

use crate::client::tls_connect_failure;
use crate::client::wrap_tls_client;
use crate::client::TlsConnectFault;
use crate::text::decimal;
use crate::text::given;
use crate::text::given_str;
use crate::text::has_prefix;
use crate::text::join2;
use crate::text::join4;
use crate::text::join5;
use crate::text::opt_str;
use crate::text::opt_text;
use crate::text::outcome;
use crate::text::to_decimal;
use crate::worker::SessionFailure;

verus! {

/// A PEM file: where it is, and what reading it gave.
#[derive(Debug)]
pub struct PemFile {
    pub path: String,
    pub content: Result<Vec<u8>, String>,
}

/// A PEM file, as plain mathematics.
#[verifier::ext_equal]
pub struct PemModel {
    pub path: Seq<char>,
    pub content: Result<Seq<u8>, Seq<char>>,
}

impl View for PemFile {
    type V = PemModel;

    open spec fn view(&self) -> PemModel {
        PemModel { path: self.path@, content: outcome(self.content) }
    }
}

/// An optional PEM file; one with an empty path counts as not given.
pub open spec fn given_file(file: Option<PemFile>) -> Option<PemModel> {
    match file {
        Some(file) => if file.path@.len() > 0 {
            Some(file@)
        } else {
            None
        },
        None => None,
    }
}

/// How the bytes of a private key are to be read.
#[derive(Debug, Clone, Copy, PartialEq, Eq, Structural)]
pub enum KeyEncoding {
    Pkcs1,
    Sec1,
    Pkcs8,
}

/// A private key in DER.
#[derive(Debug)]
pub struct PrivateKey {
    pub encoding: KeyEncoding,
    pub der: Vec<u8>,
}

impl View for PrivateKey {
    type V = (KeyEncoding, Seq<u8>);

    open spec fn view(&self) -> (KeyEncoding, Seq<u8>) {
        (self.encoding, self.der@)
    }
}

/// What a trust anchor consists of: subject, public key, name constraints.
#[verifier::ext_equal]
pub struct AnchorModel {
    pub subject: Seq<u8>,
    pub public_key: Seq<u8>,
    pub constraints: Option<Seq<u8>>,
}

/// The bytes of several certificates.
pub open spec fn der_list(certs: Seq<Vec<u8>>) -> Seq<Seq<u8>> {
    certs.map_values(|cert: Vec<u8>| cert@)
}

/// The server side of a TLS connection, set up.
#[verifier::external_type_specification]
#[verifier::external_body]
pub struct ExServerConfig(rustls::ServerConfig);

/// The client side of a TLS connection, set up.
#[verifier::external_type_specification]
#[verifier::external_body]
pub struct ExClientConfig(rustls::ClientConfig);

/// A collection of trust anchors.
#[verifier::external_type_specification]
#[verifier::external_body]
pub struct ExRootCertStore(rustls::RootCertStore);

/// A cryptography provider.
#[verifier::external_type_specification]
#[verifier::external_body]
pub struct ExCryptoProvider(rustls::crypto::CryptoProvider);

/// Where the cryptography comes from.
#[derive(Debug, Clone)]
pub enum Provider {
    /// From aws-lc-rs, as rustls has it where a process has installed nothing.
    AwsLcRs,
    /// From what the process has installed.
    Installed(Arc<CryptoProvider>),
}

/// The trust anchors in a store, in order.
pub uninterp spec fn root_anchors(store: rustls::RootCertStore) -> Seq<AnchorModel>;

/// The trust anchor that a certificate stands for; `None` if it cannot be
/// parsed as one.
pub uninterp spec fn certificate_anchor(der: Seq<u8>) -> Option<AnchorModel>;

/// The certificates in a PEM text, or what is wrong with the text.
pub uninterp spec fn pem_certificates(pem: Seq<u8>) -> Result<Seq<Seq<u8>>, Seq<char>>;

/// The first private key in a PEM text, or what is wrong with the text.
pub uninterp spec fn pem_private_key(pem: Seq<u8>) -> Result<
    Option<(KeyEncoding, Seq<u8>)>,
    Seq<char>,
>;

/// A server on aws-lc-rs that presents a certificate chain and asks for none, or
/// what is wrong with the chain and its key. Configurations made from the same values
/// serve alike.
pub uninterp spec fn open_server(
    certs: Seq<Seq<u8>>,
    key: (KeyEncoding, Seq<u8>),
) -> Result<rustls::ServerConfig, Seq<char>>;

/// A server on aws-lc-rs that presents a certificate chain and requires one that
/// leads to a trust anchor, or what is wrong with the chain and its key.
pub uninterp spec fn mutual_server(
    anchors: Seq<AnchorModel>,
    certs: Seq<Seq<u8>>,
    key: (KeyEncoding, Seq<u8>),
) -> Result<rustls::ServerConfig, Seq<char>>;

/// A client on aws-lc-rs that trusts some anchors and presents nothing.
pub uninterp spec fn anonymous_client(anchors: Seq<AnchorModel>) -> rustls::ClientConfig;

/// A client on aws-lc-rs that trusts some anchors and presents a certificate
/// chain to servers that ask for one, or what is wrong with the chain and its
/// key.
pub uninterp spec fn identified_client(
    anchors: Seq<AnchorModel>,
    certs: Seq<Seq<u8>>,
    key: (KeyEncoding, Seq<u8>),
) -> Result<rustls::ClientConfig, Seq<char>>;

/// Whether a host can stand in a certificate: a DNS name or an IP address.
pub uninterp spec fn is_server_name(host: Seq<char>) -> bool;

/// Calls `rustls_pemfile::certs` on a whole text and collects what it yields:
/// all certificates in order, or the first error. Items of other kinds are
/// passed over. The outcome depends on the text alone.
#[verifier::external_body]
fn read_certificates(pem: &[u8]) -> (certs: Result<Vec<Vec<u8>>, String>)
    ensures
        match certs {
            Ok(certs) => pem_certificates(pem@) == Ok::<Seq<Seq<u8>>, Seq<char>>(der_list(certs@)),
            Err(text) => pem_certificates(pem@) == Err::<Seq<Seq<u8>>, Seq<char>>(text@),
        },
{
    let mut reader = pem;
    rustls_pemfile::certs(&mut reader)
        .map(|cert| cert.map(|cert| cert.to_vec()))
        .collect::<Result<Vec<Vec<u8>>, std::io::Error>>()
        .map_err(|error| error.to_string())
}

/// Calls `rustls_pemfile::private_key` on a whole text: the first PKCS#1,
/// PKCS#8 or SEC1 key, none, or the first error before it. There are no other
/// encodings. The outcome depends on the text alone.
#[verifier::external_body]
fn read_private_key(pem: &[u8]) -> (key: Result<Option<PrivateKey>, String>)
    ensures
        match key {
            Ok(Some(key)) => pem_private_key(pem@) == Ok::<
                Option<(KeyEncoding, Seq<u8>)>,
                Seq<char>,
            >(Some(key@)),
            Ok(None) => pem_private_key(pem@) == Ok::<
                Option<(KeyEncoding, Seq<u8>)>,
                Seq<char>,
            >(None),
            Err(text) => pem_private_key(pem@) == Err::<
                Option<(KeyEncoding, Seq<u8>)>,
                Seq<char>,
            >(text@),
        },
{
    let mut reader = pem;
    let key = rustls_pemfile::private_key(&mut reader).map_err(|error| error.to_string())?;
    Ok(key.map(|key| PrivateKey {
        encoding: match &key {
            PrivateKeyDer::Pkcs1(_) => KeyEncoding::Pkcs1,
            PrivateKeyDer::Sec1(_) => KeyEncoding::Sec1,
            _ => KeyEncoding::Pkcs8,
        },
        der: key.secret_der().to_vec(),
    }))
}

/// `rustls::RootCertStore::empty` makes a store without trust anchors.
pub assume_specification[ rustls::RootCertStore::empty ]() -> (store: rustls::RootCertStore)
    ensures
        root_anchors(store) == Seq::<AnchorModel>::empty(),
;

/// The anchors among what parsing certificates gave, in order.
pub open spec fn usable(anchors: Seq<Option<AnchorModel>>) -> Seq<AnchorModel>
    decreases anchors.len(),
{
    if anchors.len() == 0 {
        Seq::empty()
    } else {
        let front = usable(anchors.drop_last());
        match anchors.last() {
            Some(anchor) => front.push(anchor),
            None => front,
        }
    }
}

/// Calls `rustls::RootCertStore::add_parsable_certificates`: every certificate
/// that can be parsed is added behind what is there, in order, and the result
/// counts those that were added and those that were not.
#[verifier::external_body]
fn add_certificates(store: &mut rustls::RootCertStore, certs: Vec<Vec<u8>>) -> (counts: (
    usize,
    usize,
))
    ensures
        root_anchors(*final(store)) == root_anchors(*old(store)) + usable(
            der_list(certs@).map_values(|der: Seq<u8>| certificate_anchor(der)),
        ),
        counts.0 == usable(
            der_list(certs@).map_values(|der: Seq<u8>| certificate_anchor(der)),
        ).len(),
        counts.0 + counts.1 == certs@.len(),
{
    store.add_parsable_certificates(certs.into_iter().map(CertificateDer::from))
}

/// A result with a text error, over the view of the error.
pub open spec fn config_outcome<T>(result: Result<T, String>) -> Result<T, Seq<char>> {
    match result {
        Ok(config) => Ok(config),
        Err(text) => Err(text@),
    }
}

/// Calls `rustls::crypto::CryptoProvider::get_default`, which gives the provider
/// that the process has installed, if it has. Nothing is stated of the result:
/// it depends on the process.
#[verifier::external_body]
fn installed_provider() -> (provider: Option<Arc<CryptoProvider>>) {
    CryptoProvider::get_default().cloned()
}

/// Calls `rustls::crypto::CryptoProvider::install_default` on the aws-lc-rs
/// provider, which fails if the process has installed one. Nothing is stated of
/// the result: it depends on the process.
#[verifier::external_body]
fn install_aws_lc_rs() -> (installed: bool) {
    default_provider().install_default().is_ok()
}

/// The provider of this process. Where it has none, aws-lc-rs is installed; if
/// another thread was faster, what that one installed counts.
fn process_provider() -> Provider {
    if let Some(provider) = installed_provider() {
        return Provider::Installed(provider);
    }
    if install_aws_lc_rs() {
        return Provider::AwsLcRs;
    }
    match installed_provider() {
        Some(provider) => Provider::Installed(provider),
        None => Provider::AwsLcRs,
    }
}

/// Calls `with_single_cert` of a rustls server configuration without client
/// authentication. On aws-lc-rs it fails if the key is invalid or does not match
/// the first certificate, and the outcome depends on chain and key alone. What
/// comes of them on an installed provider is that provider's business, and
/// nothing is stated of it.
#[verifier::external_body]
fn configure_open_server(provider: Provider, certs: Vec<Vec<u8>>, key: PrivateKey) -> (config:
    Result<rustls::ServerConfig, String>)
    ensures
        provider is AwsLcRs ==> config_outcome(config) == open_server(der_list(certs@), key@),
{
    let chain = certs.into_iter().map(CertificateDer::from).collect();
    let key = match key.encoding {
        KeyEncoding::Pkcs1 => PrivateKeyDer::Pkcs1(key.der.into()),
        KeyEncoding::Sec1 => PrivateKeyDer::Sec1(key.der.into()),
        KeyEncoding::Pkcs8 => PrivateKeyDer::Pkcs8(key.der.into()),
    };
    let provider = match provider {
        Provider::AwsLcRs => Arc::new(default_provider()),
        Provider::Installed(provider) => provider,
    };
    rustls::ServerConfig::builder_with_provider(provider)
        .with_safe_default_protocol_versions()
        .and_then(|builder| builder.with_no_client_auth().with_single_cert(chain, key))
        .map_err(|error| error.to_string())
}

/// Calls `with_single_cert` of a rustls server configuration that verifies
/// client certificates by `WebPkiClientVerifier`. Building the verifier fails
/// only without trust anchors. On aws-lc-rs the rest fails if the key is invalid
/// or does not match the first certificate, and the outcome depends on anchors,
/// chain and key alone. What comes of them on an installed provider is that
/// provider's business, and nothing is stated of it.
#[verifier::external_body]
fn configure_mutual_server(
    provider: Provider,
    store: rustls::RootCertStore,
    certs: Vec<Vec<u8>>,
    key: PrivateKey,
) -> (config: Result<rustls::ServerConfig, String>)
    requires
        root_anchors(store).len() > 0,
    ensures
        provider is AwsLcRs ==> config_outcome(config) == mutual_server(
            root_anchors(store),
            der_list(certs@),
            key@,
        ),
{
    let chain = certs.into_iter().map(CertificateDer::from).collect();
    let key = match key.encoding {
        KeyEncoding::Pkcs1 => PrivateKeyDer::Pkcs1(key.der.into()),
        KeyEncoding::Sec1 => PrivateKeyDer::Sec1(key.der.into()),
        KeyEncoding::Pkcs8 => PrivateKeyDer::Pkcs8(key.der.into()),
    };
    let provider = match provider {
        Provider::AwsLcRs => Arc::new(default_provider()),
        Provider::Installed(provider) => provider,
    };
    let checks = WebPkiClientVerifier::builder_with_provider(store.into(), provider.clone()).build();
    let verifier = checks.map_err(|error| error.to_string())?;
    rustls::ServerConfig::builder_with_provider(provider).with_safe_default_protocol_versions()
        .and_then(|builder| builder.with_client_cert_verifier(verifier).with_single_cert(chain, key))
        .map_err(|error| error.to_string())
}

/// Calls `with_no_client_auth` of a rustls client configuration with the given
/// trust anchors. On aws-lc-rs it cannot fail, since this provider has suites
/// for the default protocol versions, and the outcome depends on the anchors
/// alone. An installed provider may lack such suites; nothing is stated of the
/// outcome on it.
#[verifier::external_body]
fn configure_anonymous_client(
    provider: Provider,
    store: rustls::RootCertStore,
) -> (config: Result<rustls::ClientConfig, String>)
    ensures
        provider is AwsLcRs ==> config is Ok,
        provider is AwsLcRs ==> config->Ok_0 == anonymous_client(root_anchors(store)),
{
    let provider = match provider {
        Provider::AwsLcRs => Arc::new(default_provider()),
        Provider::Installed(provider) => provider,
    };
    rustls::ClientConfig::builder_with_provider(provider)
        .with_safe_default_protocol_versions()
        .map(|builder| builder.with_root_certificates(store).with_no_client_auth())
        .map_err(|error| error.to_string())
}

/// Calls `with_client_auth_cert` of a rustls client configuration with the
/// given trust anchors. On aws-lc-rs it fails if the key is invalid or does not
/// match the first certificate, and the outcome depends on anchors, chain and
/// key alone. What comes of them on an installed provider is that provider's
/// business, and nothing is stated of it.
#[verifier::external_body]
fn configure_identified_client(
    provider: Provider,
    store: rustls::RootCertStore,
    certs: Vec<Vec<u8>>,
    key: PrivateKey,
) -> (config: Result<rustls::ClientConfig, String>)
    ensures
        provider is AwsLcRs ==> config_outcome(config) == identified_client(
            root_anchors(store),
            der_list(certs@),
            key@,
        ),
{
    let chain = certs.into_iter().map(CertificateDer::from).collect();
    let key = match key.encoding {
        KeyEncoding::Pkcs1 => PrivateKeyDer::Pkcs1(key.der.into()),
        KeyEncoding::Sec1 => PrivateKeyDer::Sec1(key.der.into()),
        KeyEncoding::Pkcs8 => PrivateKeyDer::Pkcs8(key.der.into()),
    };
    let provider = match provider {
        Provider::AwsLcRs => Arc::new(default_provider()),
        Provider::Installed(provider) => provider,
    };
    rustls::ClientConfig::builder_with_provider(provider)
        .with_safe_default_protocol_versions()
        .and_then(|builder| builder.with_root_certificates(store).with_client_auth_cert(chain, key))
        .map_err(|error| error.to_string())
}

/// Calls `rustls::pki_types::ServerName::try_from` on a host and tells whether
/// it succeeds, which it does for DNS names and IP addresses; that depends on
/// the host alone.
#[verifier::external_body]
fn names_a_server(host: &str) -> (named: bool)
    ensures
        named == is_server_name(host@),
{
    rustls::pki_types::ServerName::try_from(host.to_owned()).is_ok()
}

/// Something that went wrong with a file.
pub open spec fn file_trouble(
    verb: Seq<char>,
    what: Seq<char>,
    path: Seq<char>,
    rest: Seq<char>,
) -> Seq<char> {
    verb + what + " file '"@ + path + rest
}

/// The content of a PEM file, or why it could not be read.
pub open spec fn pem_content(file: PemModel, what: Seq<char>) -> Result<Seq<u8>, Seq<char>> {
    match file.content {
        Ok(bytes) => Ok(bytes),
        Err(text) => Err(file_trouble("Failed to read "@, what, file.path, "': "@ + text)),
    }
}

/// The content of a PEM file, or why it could not be read.
fn read_pem_file<'a>(file: &'a PemFile, what: &str) -> (content: Result<&'a [u8], String>)
    ensures
        match content {
            Ok(bytes) => pem_content(file@, what@) == Ok::<Seq<u8>, Seq<char>>(bytes@),
            Err(text) => pem_content(file@, what@) == Err::<Seq<u8>, Seq<char>>(text@),
        },
{
    match &file.content {
        Ok(bytes) => Ok(bytes.as_slice()),
        Err(text) => {
            let rest: String = join2("': ", text.as_str());
            Err(join5("Failed to read ", what, " file '", file.path.as_str(), rest.as_str()))
        },
    }
}

/// The certificates of a PEM file: it must be readable, well formed, and hold
/// at least one.
pub open spec fn cert_chain(file: PemModel, what: Seq<char>) -> Result<Seq<Seq<u8>>, Seq<char>> {
    match pem_content(file, what) {
        Err(text) => Err(text),
        Ok(bytes) => match pem_certificates(bytes) {
            Err(text) => Err(file_trouble("Failed to parse "@, what, file.path, "': "@ + text)),
            Ok(certs) => if certs.len() == 0 {
                Err(what + " file '"@ + file.path + "' contains no certificates"@)
            } else {
                Ok(certs)
            },
        },
    }
}

/// Loads the certificates of a PEM file.
pub fn load_cert_chain(file: &PemFile, what: &str) -> (certs: Result<Vec<Vec<u8>>, String>)
    ensures
        match certs {
            Ok(certs) => cert_chain(file@, what@) == Ok::<Seq<Seq<u8>>, Seq<char>>(
                der_list(certs@),
            ),
            Err(text) => cert_chain(file@, what@) == Err::<Seq<Seq<u8>>, Seq<char>>(text@),
        },
{
    let pem: &[u8] = match read_pem_file(file, what) {
        Ok(pem) => pem,
        Err(text) => return Err(text),
    };
    match read_certificates(pem) {
        Ok(certs) => {
            if certs.len() == 0 {
                return Err(
                    join4(what, " file '", file.path.as_str(), "' contains no certificates"),
                );
            }
            Ok(certs)
        },
        Err(text) => {
            let rest: String = join2("': ", text.as_str());
            Err(join5("Failed to parse ", what, " file '", file.path.as_str(), rest.as_str()))
        },
    }
}

/// The private key of a PEM file: it must be readable, well formed up to its
/// first key, and hold one.
pub open spec fn private_key_of(file: PemModel, what: Seq<char>) -> Result<
    (KeyEncoding, Seq<u8>),
    Seq<char>,
> {
    match pem_content(file, what) {
        Err(text) => Err(text),
        Ok(bytes) => match pem_private_key(bytes) {
            Err(text) => Err(file_trouble("Failed to parse "@, what, file.path, "': "@ + text)),
            Ok(None) => Err(what + " file '"@ + file.path + "' contains no private key"@),
            Ok(Some(key)) => Ok(key),
        },
    }
}

/// Loads the private key of a PEM file.
pub fn load_private_key(file: &PemFile, what: &str) -> (key: Result<PrivateKey, String>)
    ensures
        outcome(key) == private_key_of(file@, what@),
{
    let pem: &[u8] = match read_pem_file(file, what) {
        Ok(pem) => pem,
        Err(text) => return Err(text),
    };
    match read_private_key(pem) {
        Ok(Some(key)) => Ok(key),
        Ok(None) => Err(join4(what, " file '", file.path.as_str(), "' contains no private key")),
        Err(text) => {
            let rest: String = join2("': ", text.as_str());
            Err(join5("Failed to parse ", what, " file '", file.path.as_str(), rest.as_str()))
        },
    }
}

/// The anchors that certificates stand for, as far as they can be parsed.
pub open spec fn anchors_of(certs: Seq<Seq<u8>>) -> Seq<AnchorModel> {
    usable(certs.map_values(|der: Seq<u8>| certificate_anchor(der)))
}

/// What to trust: the platform's certificates and, behind them, those of a CA
/// bundle, which must hold at least one that is usable.
pub open spec fn tls_roots(ca: Option<PemModel>, native: Seq<Seq<u8>>) -> Result<
    Seq<AnchorModel>,
    Seq<char>,
> {
    match ca {
        None => Ok(anchors_of(native)),
        Some(file) => match cert_chain(file, "TLS CA certificate"@) {
            Err(text) => Err(text),
            Ok(certs) => if anchors_of(certs).len() == 0 {
                Err(
                    "TLS CA certificate file '"@ + file.path
                        + "' contains no usable certificates ("@ + decimal(certs.len())
                        + " ignored)"@,
                )
            } else {
                Ok(anchors_of(native) + anchors_of(certs))
            },
        },
    }
}

/// Collects what to trust. In play and publish mode that says which servers to
/// trust; in listen mode it says which clients to trust.
pub fn load_tls_roots(ca: Option<&PemFile>, native: Vec<Vec<u8>>) -> (roots: Result<
    rustls::RootCertStore,
    String,
>)
    ensures
        match roots {
            Ok(store) => tls_roots(
                match ca {
                    Some(file) => Some(file@),
                    None => None,
                },
                der_list(native@),
            ) == Ok::<Seq<AnchorModel>, Seq<char>>(root_anchors(store)),
            Err(text) => tls_roots(
                match ca {
                    Some(file) => Some(file@),
                    None => None,
                },
                der_list(native@),
            ) == Err::<Seq<AnchorModel>, Seq<char>>(text@),
        },
{
    let mut store: rustls::RootCertStore = rustls::RootCertStore::empty();
    let _counts: (usize, usize) = add_certificates(&mut store, native);
    assert(root_anchors(store) =~= anchors_of(der_list(native@)));
    let file: &PemFile = match ca {
        None => return Ok(store),
        Some(file) => file,
    };
    let certs: Vec<Vec<u8>> = match load_cert_chain(file, "TLS CA certificate") {
        Ok(certs) => certs,
        Err(text) => return Err(text),
    };
    let (added, ignored): (usize, usize) = add_certificates(&mut store, certs);
    if added == 0 {
        let count: String = to_decimal(ignored as u64);
        return Err(
            join5(
                "TLS CA certificate file '",
                file.path.as_str(),
                "' contains no usable certificates (",
                count.as_str(),
                " ignored)",
            ),
        );
    }
    Ok(store)
}

/// A borrowed PEM file, unless its path is empty.
fn given_pem(file: &Option<PemFile>) -> (given: Option<&PemFile>)
    ensures
        match given {
            Some(pem) => given_file(*file) == Some(pem@),
            None => given_file(*file) is None,
        },
{
    match file {
        Some(pem) => {
            if pem.path.as_str().unicode_len() > 0 {
                Some(pem)
            } else {
                None
            }
        },
        None => None,
    }
}

/// What a client configuration is made from: whom to trust and, if there is one,
/// the identity to present. Chain and key are given both or neither.
pub open spec fn client_material(
    ca: Option<PemModel>,
    cert: Option<PemModel>,
    key: Option<PemModel>,
    native: Seq<Seq<u8>>,
) -> Result<
    (Seq<AnchorModel>, Option<(Seq<Seq<u8>>, (KeyEncoding, Seq<u8>))>),
    Seq<char>,
> {
    match tls_roots(ca, native) {
        Err(text) => Err(text),
        Ok(anchors) => match client_identity(cert, key) {
            Err(text) => Err(text),
            Ok(identity) => Ok((anchors, identity)),
        },
    }
}

/// The identity that a client presents, if there is one.
pub open spec fn client_identity(cert: Option<PemModel>, key: Option<PemModel>) -> Result<
    Option<(Seq<Seq<u8>>, (KeyEncoding, Seq<u8>))>,
    Seq<char>,
> {
    match (cert, key) {
        (None, None) => Ok(None),
        (Some(cert), Some(key)) => match cert_chain(cert, "TLS client certificate"@) {
            Err(text) => Err(text),
            Ok(certs) => match private_key_of(key, "TLS client private key"@) {
                Err(text) => Err(text),
                Ok(key) => Ok(Some((certs, key))),
            },
        },
        _ => Err("tls-cert and tls-key must be set together for mTLS client authentication"@),
    }
}

/// The client configuration on aws-lc-rs.
pub open spec fn client_tls(
    ca: Option<PemModel>,
    cert: Option<PemModel>,
    key: Option<PemModel>,
    native: Seq<Seq<u8>>,
) -> Result<rustls::ClientConfig, Seq<char>> {
    match client_material(ca, cert, key, native) {
        Err(text) => Err(text),
        Ok((anchors, None)) => Ok(anonymous_client(anchors)),
        Ok((anchors, Some((certs, key)))) => paired_client(identified_client(anchors, certs, key)),
    }
}

/// What holds of a client configuration on every provider: it fails as its
/// files do, and otherwise only because chain and key do not go together or the
/// provider does not take them. What an unfit provider is said to lack where
/// there is no identity is left open.
pub open spec fn client_tls_bounds(
    ca: Option<PemModel>,
    cert: Option<PemModel>,
    key: Option<PemModel>,
    native: Seq<Seq<u8>>,
    config: Result<rustls::ClientConfig, Seq<char>>,
) -> bool {
    match client_material(ca, cert, key, native) {
        Err(text) => config == Err::<rustls::ClientConfig, Seq<char>>(text),
        Ok((anchors, identity)) => config matches Err(text) ==> identity is Some ==> has_prefix(
            text,
            "Invalid TLS client certificate/key pair: "@,
        ),
    }
}

/// A client configuration with an identity, or what is said of a chain and key
/// that do not go together.
pub open spec fn paired_client(config: Result<rustls::ClientConfig, Seq<char>>) -> Result<
    rustls::ClientConfig,
    Seq<char>,
> {
    match config {
        Ok(config) => Ok(config),
        Err(text) => Err("Invalid TLS client certificate/key pair: "@ + text),
    }
}

/// What to make of a client configuration with an identity, whatever the
/// provider made of it.
pub fn pair_client(config: Result<rustls::ClientConfig, String>) -> (paired: Result<
    rustls::ClientConfig,
    String,
>)
    ensures
        config_outcome(paired) == paired_client(config_outcome(config)),
{
    match config {
        Ok(config) => Ok(config),
        Err(text) => Err(join2("Invalid TLS client certificate/key pair: ", text.as_str())),
    }
}

/// Builds the client configuration: the platform's certificates and an
/// optional CA bundle say which servers to trust, and an optional identity is
/// presented to servers that ask for one. Certificate and key are set both or
/// neither. The cryptography is what the process has installed, or aws-lc-rs.
/// Which configuration comes of that depends on the process;
/// [`build_tls_client_config_on`] fixes it for aws-lc-rs.
pub fn build_tls_client_config(
    ca: Option<PemFile>,
    cert: Option<PemFile>,
    key: Option<PemFile>,
    native: Vec<Vec<u8>>,
) -> (config: Result<rustls::ClientConfig, String>)
    ensures
        client_tls_bounds(
            given_file(ca),
            given_file(cert),
            given_file(key),
            der_list(native@),
            config_outcome(config),
        ),
{
    build_tls_client_config_on(process_provider(), ca, cert, key, native)
}

/// Builds the client configuration on a given provider.
pub fn build_tls_client_config_on(
    provider: Provider,
    ca: Option<PemFile>,
    cert: Option<PemFile>,
    key: Option<PemFile>,
    native: Vec<Vec<u8>>,
) -> (config: Result<rustls::ClientConfig, String>)
    ensures
        client_tls_bounds(
            given_file(ca),
            given_file(cert),
            given_file(key),
            der_list(native@),
            config_outcome(config),
        ),
        provider is AwsLcRs ==> config_outcome(config) == client_tls(
            given_file(ca),
            given_file(cert),
            given_file(key),
            der_list(native@),
        ),
{
    let roots: rustls::RootCertStore = match load_tls_roots(given_pem(&ca), native) {
        Ok(roots) => roots,
        Err(text) => return Err(text),
    };
    finish_tls_client_config(provider, roots, given_pem(&cert), given_pem(&key))
}

/// A borrowed PEM file as a model.
pub open spec fn borrowed_file(file: Option<&PemFile>) -> Option<PemModel> {
    match file {
        Some(file) => Some(file@),
        None => None,
    }
}

/// Gives a client that knows whom to trust its identity, if there is one.
fn finish_tls_client_config(
    provider: Provider,
    roots: rustls::RootCertStore,
    cert: Option<&PemFile>,
    key: Option<&PemFile>,
) -> (config: Result<rustls::ClientConfig, String>)
    ensures
        match client_identity(borrowed_file(cert), borrowed_file(key)) {
            Err(text) => config_outcome(config) == Err::<rustls::ClientConfig, Seq<char>>(text),
            Ok(None) => provider is AwsLcRs ==> config_outcome(config) == Ok::<
                rustls::ClientConfig,
                Seq<char>,
            >(anonymous_client(root_anchors(roots))),
            Ok(Some((certs, key))) => {
                &&& provider is AwsLcRs ==> config_outcome(config) == paired_client(
                    identified_client(root_anchors(roots), certs, key),
                )
                &&& config matches Err(text) ==> has_prefix(
                    text@,
                    "Invalid TLS client certificate/key pair: "@,
                )
            },
        },
{
    match (cert, key) {
        (None, None) => configure_anonymous_client(provider, roots),
        (Some(cert), Some(key)) => {
            let certs: Vec<Vec<u8>> = match load_cert_chain(cert, "TLS client certificate") {
                Ok(certs) => certs,
                Err(text) => return Err(text),
            };
            let key: PrivateKey = match load_private_key(key, "TLS client private key") {
                Ok(key) => key,
                Err(text) => return Err(text),
            };
            let config: Result<rustls::ClientConfig, String> = pair_client(
                configure_identified_client(provider, roots, certs, key),
            );
            if let Err(text) = &config {
                proof {
                    lemma_joined_prefix(text@, "Invalid TLS client certificate/key pair: "@);
                }
            }
            config
        },
        _ => Err(
            "tls-cert and tls-key must be set together for mTLS client authentication".to_owned(),
        ),
    }
}

proof fn lemma_joined_prefix(text: Seq<char>, prefix: Seq<char>)
    requires
        exists|rest: Seq<char>| text == #[trigger] (prefix + rest),
    ensures
        has_prefix(text, prefix),
{
    let rest = choose|rest: Seq<char>| text == #[trigger] (prefix + rest);
    assert(text.take(prefix.len() as int) =~= prefix);
}

/// What a server configuration is made from: a certificate chain, its key and,
/// if clients must present a certificate, whom to trust.
pub open spec fn server_material(
    cert: PemModel,
    key: PemModel,
    ca: Option<PemModel>,
    native: Seq<Seq<u8>>,
) -> Result<
    (Seq<Seq<u8>>, (KeyEncoding, Seq<u8>), Option<Seq<AnchorModel>>),
    Seq<char>,
> {
    match cert_chain(cert, "TLS certificate"@) {
        Err(text) => Err(text),
        Ok(certs) => match private_key_of(key, "TLS private key"@) {
            Err(text) => Err(text),
            Ok(key) => match ca {
                None => Ok((certs, key, None)),
                Some(file) => match tls_roots(ca, native) {
                    Err(text) => Err(text),
                    Ok(anchors) => Ok((certs, key, Some(anchors))),
                },
            },
        },
    }
}

/// The server configuration on aws-lc-rs.
pub open spec fn server_tls(
    cert: PemModel,
    key: PemModel,
    ca: Option<PemModel>,
    native: Seq<Seq<u8>>,
) -> Result<rustls::ServerConfig, Seq<char>> {
    match server_material(cert, key, ca, native) {
        Err(text) => Err(text),
        Ok((certs, key, None)) => paired(open_server(certs, key)),
        Ok((certs, key, Some(anchors))) => paired(mutual_server(anchors, certs, key)),
    }
}

/// What holds of a server configuration on every provider: it fails as its
/// files do, and otherwise only because chain and key do not go together or the
/// provider does not take them.
pub open spec fn server_tls_bounds(
    cert: PemModel,
    key: PemModel,
    ca: Option<PemModel>,
    native: Seq<Seq<u8>>,
    config: Result<rustls::ServerConfig, Seq<char>>,
) -> bool {
    match server_material(cert, key, ca, native) {
        Err(text) => config == Err::<rustls::ServerConfig, Seq<char>>(text),
        Ok(_) => config matches Err(text) ==> has_prefix(
            text,
            "Invalid TLS certificate/key pair: "@,
        ),
    }
}

/// A server configuration, or what is said of a chain and key that do not go
/// together.
pub open spec fn paired(config: Result<rustls::ServerConfig, Seq<char>>) -> Result<
    rustls::ServerConfig,
    Seq<char>,
> {
    match config {
        Ok(config) => Ok(config),
        Err(text) => Err("Invalid TLS certificate/key pair: "@ + text),
    }
}

/// What to make of a server configuration, whatever the provider made of it.
pub fn pair_server(config: Result<rustls::ServerConfig, String>) -> (result: Result<
    rustls::ServerConfig,
    String,
>)
    ensures
        config_outcome(result) == paired(config_outcome(config)),
{
    match config {
        Ok(config) => Ok(config),
        Err(text) => Err(join2("Invalid TLS certificate/key pair: ", text.as_str())),
    }
}

/// Builds the server configuration of an `rtmps://` listener from a PEM
/// certificate chain and its PEM private key.
///
/// Without a CA bundle any peer may connect, exactly as on a plain `rtmp://`
/// listener. With one, the peer must present a client certificate that leads
/// to the platform's certificates or to that bundle. The cryptography is what
/// the process has installed, or aws-lc-rs. Which configuration comes of that
/// depends on the process; [`build_tls_acceptor_on`] fixes it for aws-lc-rs.
pub fn build_tls_acceptor(
    cert: PemFile,
    key: PemFile,
    ca: Option<PemFile>,
    native: Vec<Vec<u8>>,
) -> (config: Result<rustls::ServerConfig, String>)
    ensures
        server_tls_bounds(
            cert@,
            key@,
            given_file(ca),
            der_list(native@),
            config_outcome(config),
        ),
{
    build_tls_acceptor_on(process_provider(), cert, key, ca, native)
}

/// Builds the server configuration of an `rtmps://` listener on a given
/// provider.
pub fn build_tls_acceptor_on(
    provider: Provider,
    cert: PemFile,
    key: PemFile,
    ca: Option<PemFile>,
    native: Vec<Vec<u8>>,
) -> (config: Result<rustls::ServerConfig, String>)
    ensures
        server_tls_bounds(
            cert@,
            key@,
            given_file(ca),
            der_list(native@),
            config_outcome(config),
        ),
        provider is AwsLcRs ==> config_outcome(config) == server_tls(
            cert@,
            key@,
            given_file(ca),
            der_list(native@),
        ),
{
    let certs: Vec<Vec<u8>> = match load_cert_chain(&cert, "TLS certificate") {
        Ok(certs) => certs,
        Err(text) => return Err(text),
    };
    let key: PrivateKey = match load_private_key(&key, "TLS private key") {
        Ok(key) => key,
        Err(text) => return Err(text),
    };
    let config: Result<rustls::ServerConfig, String> = match given_pem(&ca) {
        None => configure_open_server(provider, certs, key),
        Some(file) => match load_tls_roots(Some(file), native) {
            Ok(roots) => configure_mutual_server(provider, roots, certs, key),
            Err(text) => return Err(text),
        },
    };
    let result: Result<rustls::ServerConfig, String> = pair_server(config);
    if let Err(text) = &result {
        proof {
            lemma_joined_prefix(text@, "Invalid TLS certificate/key pair: "@);
        }
    }
    result
}

/// What is said of the platform's certificates that cannot be parsed; nothing if
/// all can.
pub open spec fn unusable_report(native: Seq<Seq<u8>>) -> Option<Seq<char>> {
    let loaded = anchors_of(native).len();
    if loaded == native.len() {
        None
    } else {
        Some(
            "Ignored "@ + decimal((native.len() - loaded) as nat)
                + " unparsable certificate(s) from the platform TLS trust store ("@ + decimal(
                loaded,
            ) + " loaded)"@,
        )
    }
}

/// What to log about the platform's certificates.
pub fn platform_store_report(native: Vec<Vec<u8>>) -> (report: Option<String>)
    ensures
        opt_text(report) == unusable_report(der_list(native@)),
{
    let mut store: rustls::RootCertStore = rustls::RootCertStore::empty();
    let (added, ignored): (usize, usize) = add_certificates(&mut store, native);
    if ignored == 0 {
        return None;
    }
    let skipped: String = to_decimal(ignored as u64);
    let loaded: String = to_decimal(added as u64);
    Some(
        join5(
            "Ignored ",
            skipped.as_str(),
            " unparsable certificate(s) from the platform TLS trust store (",
            loaded.as_str(),
            " loaded)",
        ),
    )
}

/// The files that an `rtmps://` listener is set up from.
#[derive(Debug)]
pub struct TlsListenFiles {
    pub cert: String,
    pub key: String,
    pub ca: Option<String>,
}

/// The files that an `rtmps://` listener is set up from, as plain mathematics.
#[verifier::ext_equal]
pub struct TlsFilesModel {
    pub cert: Seq<char>,
    pub key: Seq<char>,
    pub ca: Option<Seq<char>>,
}

impl View for TlsListenFiles {
    type V = TlsFilesModel;

    open spec fn view(&self) -> TlsFilesModel {
        TlsFilesModel {
            cert: self.cert@,
            key: self.key@,
            ca: opt_text(self.ca),
        }
    }
}

/// The files that a listener needs: none on `rtmp://`; certificate and key on
/// `rtmps://`, and the CA bundle if one is set.
pub open spec fn listen_files(
    tls: bool,
    cert: Option<Seq<char>>,
    key: Option<Seq<char>>,
    ca: Option<Seq<char>>,
    what: Seq<char>,
) -> Result<Option<TlsFilesModel>, Seq<char>> {
    if !tls {
        Ok(None)
    } else {
        match (given(cert), given(key)) {
            (None, _) => Err(
                what + " uses an rtmps:// uri and needs tls-cert (PEM certificate chain)"@,
            ),
            (Some(_), None) => Err(
                what + " uses an rtmps:// uri and needs tls-key (PEM private key)"@,
            ),
            (Some(cert), Some(key)) => Ok(Some(TlsFilesModel { cert, key, ca: given(ca) })),
        }
    }
}

/// Decides which files a listener is set up from. Missing files on an
/// `rtmps://` listener are an error, so that the element fails to start
/// instead of listening unencrypted. A CA bundle turns on mandatory client
/// certificates.
pub fn resolve_tls_acceptor(
    tls: bool,
    cert_file: Option<&str>,
    key_file: Option<&str>,
    client_ca_file: Option<&str>,
    what: &str,
) -> (files: Result<Option<TlsListenFiles>, String>)
    ensures
        match files {
            Ok(Some(files)) => listen_files(
                tls,
                opt_str(cert_file),
                opt_str(key_file),
                opt_str(client_ca_file),
                what@,
            ) == Ok::<Option<TlsFilesModel>, Seq<char>>(Some(files@)),
            Ok(None) => !tls,
            Err(text) => listen_files(
                tls,
                opt_str(cert_file),
                opt_str(key_file),
                opt_str(client_ca_file),
                what@,
            ) == Err::<Option<TlsFilesModel>, Seq<char>>(text@),
        },
{
    if !tls {
        return Ok(None);
    }
    let cert: &str = match given_str(cert_file) {
        Some(cert) => cert,
        None => {
            return Err(
                join2(what, " uses an rtmps:// uri and needs tls-cert (PEM certificate chain)"),
            );
        },
    };
    let key: &str = match given_str(key_file) {
        Some(key) => key,
        None => {
            return Err(join2(what, " uses an rtmps:// uri and needs tls-key (PEM private key)"));
        },
    };
    let ca: Option<String> = match given_str(client_ca_file) {
        Some(ca) => Some(ca.to_owned()),
        None => None,
    };
    Ok(Some(TlsListenFiles { cert: cert.to_owned(), key: key.to_owned(), ca }))
}

/// Readies a connection to a server for its TLS handshake: there must be a
/// configuration, and the host must be a name or address that a certificate
/// can carry.
pub fn prepare_tls_client(config: Result<rustls::ClientConfig, String>, host: &str) -> (ready:
    Result<rustls::ClientConfig, SessionFailure>)
    ensures
        match ready {
            Ok(used) => config == Ok::<rustls::ClientConfig, String>(used) && is_server_name(host@),
            Err(failure) => failure@ == match config {
                Err(message) => tls_connect_failure(TlsConnectFault::Setup(message), host@),
                Ok(_) => tls_connect_failure(TlsConnectFault::ServerName, host@),
            },
        },
        ready is Ok <==> config is Ok && is_server_name(host@),
{
    match config {
        Err(message) => Err(wrap_tls_client(TlsConnectFault::Setup(message), host)),
        Ok(config) => {
            if names_a_server(host) {
                Ok(config)
            } else {
                Err(wrap_tls_client(TlsConnectFault::ServerName, host))
            }
        },
    }
}

/// With a CA bundle a listener's configuration is made with whom to trust, on
/// every provider, and on aws-lc-rs it is one that requires client certificates,
/// or there is none.
pub proof fn law_ca_bundle_makes_client_certificates_mandatory(
    cert: PemModel,
    key: PemModel,
    ca: PemModel,
    native: Seq<Seq<u8>>,
)
    ensures
        server_material(cert, key, Some(ca), native) matches Ok((certs, secret, anchors)) ==> {
            &&& anchors matches Some(trusted) && trusted.len() > 0 && tls_roots(Some(ca), native)
                == Ok::<Seq<AnchorModel>, Seq<char>>(trusted)
            &&& server_tls(cert, key, Some(ca), native) == paired(
                mutual_server(anchors->Some_0, certs, secret),
            )
        },
        server_tls(cert, key, Some(ca), native) is Ok ==> server_material(
            cert,
            key,
            Some(ca),
            native,
        ) is Ok,
{
}

/// A client identity is all or nothing: half a pair is an error, whatever the
/// file holds and whatever the provider is.
pub proof fn law_half_an_identity_is_refused(
    ca: Option<PemModel>,
    cert: Option<PemModel>,
    key: Option<PemModel>,
    native: Seq<Seq<u8>>,
)
    requires
        cert is Some != key is Some,
    ensures
        client_material(ca, cert, key, native) is Err,
        forall|config: Result<rustls::ClientConfig, Seq<char>>| #[trigger]
            client_tls_bounds(ca, cert, key, native, config) ==> config is Err,
{
}

/// Without extras a client on aws-lc-rs always gets a configuration that trusts
/// the platform's certificates.
pub proof fn law_plain_client_always_builds(native: Seq<Seq<u8>>)
    ensures
        client_tls(None, None, None, native) == Ok::<rustls::ClientConfig, Seq<char>>(
            anonymous_client(anchors_of(native)),
        ),
{
}

/// A file that cannot be read always ends the setup that needs it, whatever the
/// provider is.
pub proof fn law_unreadable_files_are_refused(
    cert: PemModel,
    key: PemModel,
    ca: Option<PemModel>,
    native: Seq<Seq<u8>>,
)
    requires
        cert.content is Err || key.content is Err || (ca matches Some(file) && file.content is Err),
    ensures
        forall|config: Result<rustls::ServerConfig, Seq<char>>| #[trigger]
            server_tls_bounds(cert, key, ca, native, config) ==> config is Err,
        forall|config: Result<rustls::ClientConfig, Seq<char>>| #[trigger]
            client_tls_bounds(ca, Some(cert), Some(key), native, config) ==> config is Err,
{
}

/// An `rtmps://` listener never starts unencrypted, and an `rtmp://` listener
/// needs no files.
pub proof fn law_rtmps_listener_needs_certificate_and_key(
    cert: Option<Seq<char>>,
    key: Option<Seq<char>>,
    ca: Option<Seq<char>>,
    what: Seq<char>,
)
    ensures
        listen_files(false, cert, key, ca, what) == Ok::<Option<TlsFilesModel>, Seq<char>>(None),
        listen_files(true, cert, key, ca, what) matches Ok(files) ==> files is Some,
        listen_files(true, cert, key, ca, what) is Ok <==> given(cert) is Some && given(key) is Some,
{
}

/// A certificate chain is all that its file holds, in order. A file that cannot
/// be read or parsed, or holds none, is refused with its path and the reason.
pub proof fn law_cert_chains_are_what_their_file_holds(
    path: Seq<char>,
    bytes: Seq<u8>,
    reason: Seq<char>,
    what: Seq<char>,
)
    ensures
        cert_chain(PemModel { path, content: Err(reason) }, what) == Err::<
            Seq<Seq<u8>>,
            Seq<char>,
        >("Failed to read "@ + what + " file '"@ + path + ("': "@ + reason)),
        ({
            let chain = cert_chain(PemModel { path, content: Ok(bytes) }, what);
            match pem_certificates(bytes) {
                Err(text) => chain == Err::<Seq<Seq<u8>>, Seq<char>>(
                    "Failed to parse "@ + what + " file '"@ + path + ("': "@ + text),
                ),
                Ok(certs) => if certs.len() == 0 {
                    chain == Err::<Seq<Seq<u8>>, Seq<char>>(
                        what + " file '"@ + path + "' contains no certificates"@,
                    )
                } else {
                    chain == Ok::<Seq<Seq<u8>>, Seq<char>>(certs)
                },
            }
        }),
{
}

/// A private key is the one that its file holds. A file that cannot be read or
/// parsed, or holds none, is refused with its path and the reason.
pub proof fn law_private_keys_are_what_their_file_holds(
    path: Seq<char>,
    bytes: Seq<u8>,
    reason: Seq<char>,
    what: Seq<char>,
)
    ensures
        private_key_of(PemModel { path, content: Err(reason) }, what) == Err::<
            (KeyEncoding, Seq<u8>),
            Seq<char>,
        >("Failed to read "@ + what + " file '"@ + path + ("': "@ + reason)),
        ({
            let key = private_key_of(PemModel { path, content: Ok(bytes) }, what);
            match pem_private_key(bytes) {
                Err(text) => key == Err::<(KeyEncoding, Seq<u8>), Seq<char>>(
                    "Failed to parse "@ + what + " file '"@ + path + ("': "@ + text),
                ),
                Ok(None) => key == Err::<(KeyEncoding, Seq<u8>), Seq<char>>(
                    what + " file '"@ + path + "' contains no private key"@,
                ),
                Ok(Some(secret)) => key == Ok::<(KeyEncoding, Seq<u8>), Seq<char>>(secret),
            }
        }),
{
}

/// Certificates are trusted one by one, in order: each that can be parsed is one
/// more anchor behind the others, and each that cannot is none.
pub proof fn law_every_usable_certificate_is_trusted(certs: Seq<Seq<u8>>, next: Seq<u8>)
    ensures
        anchors_of(Seq::empty()).len() == 0,
        anchors_of(certs.push(next)) == match certificate_anchor(next) {
            Some(anchor) => anchors_of(certs).push(anchor),
            None => anchors_of(certs),
        },
{
    let parsed = certs.map_values(|der: Seq<u8>| certificate_anchor(der));
    let longer = certs.push(next).map_values(|der: Seq<u8>| certificate_anchor(der));
    assert(longer.drop_last() =~= parsed);
    assert(longer.last() == certificate_anchor(next));
    assert(Seq::<Seq<u8>>::empty().map_values(|der: Seq<u8>| certificate_anchor(der)) =~= Seq::<
        Option<AnchorModel>,
    >::empty());
}

/// Trusted are the platform's certificates and, behind them, those of the CA
/// bundle if one is set; a bundle of which none can be used is refused.
pub proof fn law_bundle_is_trusted_besides_the_platform(
    path: Seq<char>,
    bytes: Seq<u8>,
    native: Seq<Seq<u8>>,
    certs: Seq<Seq<u8>>,
)
    requires
        pem_certificates(bytes) == Ok::<Seq<Seq<u8>>, Seq<char>>(certs),
        certs.len() > 0,
    ensures
        tls_roots(None, native) == Ok::<Seq<AnchorModel>, Seq<char>>(anchors_of(native)),
        ({
            let roots = tls_roots(Some(PemModel { path, content: Ok(bytes) }), native);
            if anchors_of(certs).len() > 0 {
                roots == Ok::<Seq<AnchorModel>, Seq<char>>(anchors_of(native) + anchors_of(certs))
            } else {
                roots == Err::<Seq<AnchorModel>, Seq<char>>(
                    "TLS CA certificate file '"@ + path + "' contains no usable certificates ("@
                        + decimal(certs.len()) + " ignored)"@,
                )
            }
        }),
{
}

/// A bundle that cannot be read as certificates is refused like any other chain.
pub proof fn law_unusable_bundles_are_refused(file: PemModel, native: Seq<Seq<u8>>)
    requires
        cert_chain(file, "TLS CA certificate"@) is Err,
    ensures
        tls_roots(Some(file), native) == Err::<Seq<AnchorModel>, Seq<char>>(
            cert_chain(file, "TLS CA certificate"@)->Err_0,
        ),
{
}

/// A client is made from whom to trust and, if both are set, from the chain and
/// the key that it presents, each from its own file; the first file that is of no
/// use decides what is said. On aws-lc-rs it is then anonymous without an
/// identity and otherwise presents it.
pub proof fn law_clients_are_made_from_their_files(
    ca: Option<PemModel>,
    cert: PemModel,
    key: PemModel,
    native: Seq<Seq<u8>>,
)
    ensures
        ({
            let roots = tls_roots(ca, native);
            let chain = cert_chain(cert, "TLS client certificate"@);
            let secret = private_key_of(key, "TLS client private key"@);
            let plain = client_tls(ca, None, None, native);
            let named = client_tls(ca, Some(cert), Some(key), native);
            &&& roots matches Err(text) ==> plain == Err::<rustls::ClientConfig, Seq<char>>(text)
                && named == Err::<rustls::ClientConfig, Seq<char>>(text)
            &&& roots matches Ok(anchors) ==> plain == Ok::<rustls::ClientConfig, Seq<char>>(
                anonymous_client(anchors),
            )
            &&& roots is Ok ==> (chain matches Err(text) ==> named == Err::<
                rustls::ClientConfig,
                Seq<char>,
            >(text))
            &&& roots is Ok && chain is Ok ==> (secret matches Err(text) ==> named == Err::<
                rustls::ClientConfig,
                Seq<char>,
            >(text))
            &&& roots is Ok && chain is Ok && secret is Ok ==> named == match identified_client(
                roots->Ok_0,
                chain->Ok_0,
                secret->Ok_0,
            ) {
                Ok(config) => Ok::<rustls::ClientConfig, Seq<char>>(config),
                Err(text) => Err("Invalid TLS client certificate/key pair: "@ + text),
            }
            &&& client_material(ca, Some(cert), Some(key), native) is Ok <==> roots is Ok
                && chain is Ok && secret is Ok
            &&& client_material(ca, None, None, native) is Ok <==> roots is Ok
            &&& client_material(ca, Some(cert), Some(key), native) matches Ok((anchors, identity))
                ==> roots->Ok_0 == anchors && identity == Some((chain->Ok_0, secret->Ok_0))
            &&& client_material(ca, None, None, native) matches Ok((anchors, identity)) ==> roots->Ok_0
                == anchors && identity is None
        }),
        client_material(ca, Some(cert), None, native) is Err,
        client_material(ca, None, Some(key), native) is Err,
        tls_roots(ca, native) is Ok ==> client_material(ca, Some(cert), None, native)->Err_0
            == "tls-cert and tls-key must be set together for mTLS client authentication"@
            && client_material(ca, None, Some(key), native)->Err_0
            == "tls-cert and tls-key must be set together for mTLS client authentication"@,
{
}

/// A server is made from its chain and its key, each from its own file, and with
/// a CA bundle from whom to trust; the first file that is of no use decides what
/// is said. On aws-lc-rs it then asks for client certificates exactly if a bundle
/// is set.
pub proof fn law_servers_are_made_from_their_files(
    cert: PemModel,
    key: PemModel,
    ca: PemModel,
    native: Seq<Seq<u8>>,
)
    ensures
        ({
            let chain = cert_chain(cert, "TLS certificate"@);
            let secret = private_key_of(key, "TLS private key"@);
            let roots = tls_roots(Some(ca), native);
            let open = server_tls(cert, key, None, native);
            let mutual = server_tls(cert, key, Some(ca), native);
            let pair = |config: Result<rustls::ServerConfig, Seq<char>>|
                match config {
                    Ok(config) => Ok::<rustls::ServerConfig, Seq<char>>(config),
                    Err(text) => Err("Invalid TLS certificate/key pair: "@ + text),
                };
            &&& chain matches Err(text) ==> open == Err::<rustls::ServerConfig, Seq<char>>(text)
                && mutual == Err::<rustls::ServerConfig, Seq<char>>(text)
            &&& chain is Ok ==> (secret matches Err(text) ==> open == Err::<
                rustls::ServerConfig,
                Seq<char>,
            >(text) && mutual == Err::<rustls::ServerConfig, Seq<char>>(text))
            &&& chain is Ok && secret is Ok ==> open == pair(
                open_server(chain->Ok_0, secret->Ok_0),
            )
            &&& chain is Ok && secret is Ok ==> (roots matches Err(text) ==> mutual == Err::<
                rustls::ServerConfig,
                Seq<char>,
            >(text))
            &&& chain is Ok && secret is Ok && roots is Ok ==> mutual == pair(
                mutual_server(roots->Ok_0, chain->Ok_0, secret->Ok_0),
            )
            &&& server_material(cert, key, None, native) is Ok <==> chain is Ok && secret is Ok
            &&& server_material(cert, key, Some(ca), native) is Ok <==> chain is Ok && secret is Ok
                && roots is Ok
            &&& server_material(cert, key, None, native) matches Ok((certs, used, anchors))
                ==> certs == chain->Ok_0 && used == secret->Ok_0 && anchors is None
            &&& server_material(cert, key, Some(ca), native) matches Ok((certs, used, anchors))
                ==> certs == chain->Ok_0 && used == secret->Ok_0 && anchors == Some(roots->Ok_0)
        }),
{
}

/// The files of a listener are those that are set, each in its own place; an
/// empty path counts as none, and what is missing on `rtmps://` is named.
pub proof fn law_listeners_take_the_files_that_are_set(
    cert: Seq<char>,
    key: Seq<char>,
    ca: Option<Seq<char>>,
    what: Seq<char>,
)
    requires
        cert.len() > 0,
        key.len() > 0,
    ensures
        listen_files(true, Some(cert), Some(key), ca, what) == Ok::<
            Option<TlsFilesModel>,
            Seq<char>,
        >(
            Some(
                TlsFilesModel {
                    cert,
                    key,
                    ca: if ca is Some && ca->Some_0.len() > 0 {
                        ca
                    } else {
                        None
                    },
                },
            ),
        ),
        listen_files(true, None, Some(key), ca, what) == Err::<Option<TlsFilesModel>, Seq<char>>(
            what + " uses an rtmps:// uri and needs tls-cert (PEM certificate chain)"@,
        ),
        listen_files(true, Some(Seq::empty()), Some(key), ca, what) == Err::<
            Option<TlsFilesModel>,
            Seq<char>,
        >(what + " uses an rtmps:// uri and needs tls-cert (PEM certificate chain)"@),
        listen_files(true, Some(cert), None, ca, what) == Err::<Option<TlsFilesModel>, Seq<char>>(
            what + " uses an rtmps:// uri and needs tls-key (PEM private key)"@,
        ),
        listen_files(true, Some(cert), Some(Seq::empty()), ca, what) == Err::<
            Option<TlsFilesModel>,
            Seq<char>,
        >(what + " uses an rtmps:// uri and needs tls-key (PEM private key)"@),
{
}

/// A file with an empty path counts as not set, and every other as it is.
pub proof fn law_empty_paths_count_as_none(file: PemFile)
    ensures
        given_file(None) is None,
        file.path@.len() == 0 ==> given_file(Some(file)) is None,
        file.path@.len() > 0 ==> given_file(Some(file)) == Some(
            PemModel {
                path: file.path@,
                content: match file.content {
                    Ok(bytes) => Ok(bytes@),
                    Err(text) => Err(text@),
                },
            },
        ),
{
}

/// What is said of the platform's certificates counts those that could not be
/// parsed and those that could; if all could, nothing is said.
pub proof fn law_unparsable_certificates_are_counted(native: Seq<Seq<u8>>)
    ensures
        anchors_of(native).len() <= native.len(),
        ({
            let loaded = anchors_of(native).len();
            let ignored = (native.len() - loaded) as nat;
            unusable_report(native) == if ignored == 0 {
                None::<Seq<char>>
            } else {
                Some(
                    "Ignored "@ + decimal(ignored)
                        + " unparsable certificate(s) from the platform TLS trust store ("@
                        + decimal(loaded) + " loaded)"@,
                )
            }
        }),
    decreases native.len(),
{
    if native.len() > 0 {
        law_unparsable_certificates_are_counted(native.drop_last());
        law_every_usable_certificate_is_trusted(native.drop_last(), native.last());
        assert(native.drop_last().push(native.last()) =~= native);
    } else {
        law_every_usable_certificate_is_trusted(native, Seq::empty());
        assert(native =~= Seq::<Seq<u8>>::empty());
    }
}

} // verus!
