use std::sync::Arc;

use gstrtmpx::tls::build_tls_acceptor;
use gstrtmpx::tls::build_tls_acceptor_on;
use gstrtmpx::tls::build_tls_client_config;
use gstrtmpx::tls::build_tls_client_config_on;
use gstrtmpx::tls::pair_client;
use gstrtmpx::tls::pair_server;
use gstrtmpx::tls::PemFile;
use gstrtmpx::tls::Provider;
use rustls::crypto::aws_lc_rs::default_provider;
use rustls::crypto::CryptoProvider;

fn holding(path: &str, text: &str) -> PemFile {
    PemFile { path: path.to_string(), content: Ok(text.as_bytes().to_vec()) }
}

fn certificate() -> (String, String) {
    let certified = rcgen::generate_simple_self_signed(vec!["one".to_string()]).unwrap();
    (certified.cert.pem(), certified.signing_key.serialize_pem())
}

fn without_suites() -> CryptoProvider {
    CryptoProvider { cipher_suites: vec![], ..default_provider() }
}

/// The one test here that installs a provider, so nothing that depends on the
/// process may stand beside it.
#[test]
fn the_provider_that_the_process_installed_is_used() {
    assert!(CryptoProvider::get_default().is_none());
    without_suites().install_default().unwrap();

    let (chain, secret) = certificate();
    let cert = || holding("c.pem", &chain);
    let key = || holding("k.pem", &secret);
    assert!(build_tls_client_config(None, None, None, vec![]).is_err());
    assert!(build_tls_acceptor(cert(), key(), None, vec![])
        .unwrap_err()
        .starts_with("Invalid TLS certificate/key pair: "));
    assert!(build_tls_client_config(None, Some(cert()), Some(key()), vec![])
        .unwrap_err()
        .starts_with("Invalid TLS client certificate/key pair: "));
    assert_eq!(
        build_tls_acceptor(holding("c.pem", ""), key(), None, vec![]).unwrap_err(),
        "TLS certificate file 'c.pem' contains no certificates"
    );

    assert!(build_tls_client_config_on(Provider::AwsLcRs, None, None, None, vec![]).is_ok());
    assert!(build_tls_acceptor_on(Provider::AwsLcRs, cert(), key(), None, vec![]).is_ok());
}

#[test]
fn a_given_provider_is_used() {
    let (chain, secret) = certificate();
    let cert = || holding("c.pem", &chain);
    let key = || holding("k.pem", &secret);
    let fit = || Provider::Installed(Arc::new(default_provider()));
    let unfit = || Provider::Installed(Arc::new(without_suites()));
    let config = build_tls_client_config_on(fit(), None, None, None, vec![]).unwrap();
    assert!(!config.crypto_provider().cipher_suites.is_empty());
    assert!(build_tls_client_config_on(unfit(), None, None, None, vec![]).is_err());
    assert!(build_tls_client_config_on(
        fit(),
        None,
        Some(cert()),
        Some(key()),
        vec![]
    )
    .is_ok());
    assert!(build_tls_acceptor_on(fit(), cert(), key(), None, vec![]).is_ok());
    assert!(build_tls_acceptor_on(
        fit(),
        cert(),
        key(),
        Some(cert()),
        vec![]
    )
    .is_ok());
    assert!(build_tls_acceptor_on(unfit(), cert(), key(), Some(cert()), vec![])
        .unwrap_err()
        .starts_with("Invalid TLS certificate/key pair: "));
}

#[test]
fn outcomes_of_a_pair_are_named() {
    assert_eq!(
        pair_client(Err("odd".to_string())).unwrap_err(),
        "Invalid TLS client certificate/key pair: odd"
    );
    assert_eq!(
        pair_server(Err("odd".to_string())).unwrap_err(),
        "Invalid TLS certificate/key pair: odd"
    );
    let client = build_tls_client_config_on(Provider::AwsLcRs, None, None, None, vec![]);
    assert!(pair_client(client).is_ok());
    let (chain, secret) = certificate();
    let cert = || holding("c.pem", &chain);
    let key = || holding("k.pem", &secret);
    let server = build_tls_acceptor_on(Provider::AwsLcRs, cert(), key(), None, vec![]);
    assert!(pair_server(server).is_ok());
}
