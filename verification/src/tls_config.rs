use vstd::prelude::*;

verus! {

#[verifier::external_type_specification]
#[verifier::external_body]
pub struct ExRootCertStore(rustls::RootCertStore);

#[verifier::external_type_specification]
#[verifier::external_body]
pub struct ExClientConfig(rustls::ClientConfig);

/// Relies on `rustls::RootCertStore::add_server_trust_anchors` and
/// `webpki_roots::TLS_SERVER_ROOTS`: fills an empty store with the
/// compiled-in public root authorities, each carried over with its subject,
/// public-key info and name constraints. No I/O and no failure path.
#[verifier::external_body]
fn trust_store_from_roots() -> rustls::RootCertStore {
    let mut store = rustls::RootCertStore::empty();
    store.add_server_trust_anchors(webpki_roots::TLS_SERVER_ROOTS.0.iter().map(|ta| {
        rustls::OwnedTrustAnchor::from_subject_spki_name_constraints(
            ta.subject,
            ta.spki,
            ta.name_constraints,
        )
    }));
    store
}

/// Relies on `rustls::ClientConfig::builder`: safe protocol defaults, chain
/// verification against the given roots, and no client certificate.
#[verifier::external_body]
fn client_config_with_roots(roots: rustls::RootCertStore) -> rustls::ClientConfig {
    rustls::ClientConfig::builder()
        .with_safe_defaults()
        .with_root_certificates(roots)
        .with_no_client_auth()
}

/// Builds the TLS client configuration that every handshake verifies
/// against: the compiled-in public root authorities, safe protocol defaults,
/// no client authentication.
///
/// Construction does no I/O and cannot fail; the value is read-only
/// afterwards and safe to share across concurrent requests, so it should be
/// built once per process and reused.
pub fn build_client_config() -> rustls::ClientConfig {
    client_config_with_roots(trust_store_from_roots())
}

} // verus!
