use ssl_checker::cert::parse_certificate;
use ssl_checker::errors::InspectionError;
use ssl_checker::pipeline::extract_leaf;
use ssl_checker::pipeline::inspect_at;
use ssl_checker::pipeline::inspect_chain;
use ssl_checker::pipeline::inspect_leaf;

// ---- a small DER writer, enough to encode a minimal X.509 v3 certificate ----

fn tlv(tag: u8, content: &[u8]) -> Vec<u8> {
    let mut out = vec![tag];
    let len = content.len();
    if len < 128 {
        out.push(len as u8);
    } else if len < 256 {
        out.push(0x81);
        out.push(len as u8);
    } else {
        out.push(0x82);
        out.push((len >> 8) as u8);
        out.push((len & 0xff) as u8);
    }
    out.extend_from_slice(content);
    out
}

fn cat(parts: &[Vec<u8>]) -> Vec<u8> {
    let mut out = Vec::new();
    for p in parts {
        out.extend_from_slice(p);
    }
    out
}

/// AlgorithmIdentifier: sha256WithRSAEncryption, NULL parameters.
fn alg_id() -> Vec<u8> {
    let oid = tlv(0x06, &[0x2a, 0x86, 0x48, 0x86, 0xf7, 0x0d, 0x01, 0x01, 0x0b]);
    let null = tlv(0x05, &[]);
    tlv(0x30, &cat(&[oid, null]))
}

/// Name with a single CN attribute (UTF8String).
fn name(cn: &str) -> Vec<u8> {
    let oid_cn = tlv(0x06, &[0x55, 0x04, 0x03]);
    let value = tlv(0x0c, cn.as_bytes());
    let atv = tlv(0x30, &cat(&[oid_cn, value]));
    let rdn = tlv(0x31, &atv);
    tlv(0x30, &rdn)
}

/// Validity with two UTCTime bounds ("YYMMDDHHMMSSZ").
fn validity(not_before: &str, not_after: &str) -> Vec<u8> {
    let nb = tlv(0x17, not_before.as_bytes());
    let na = tlv(0x17, not_after.as_bytes());
    tlv(0x30, &cat(&[nb, na]))
}

/// SubjectPublicKeyInfo with a dummy key (never deep-parsed).
fn spki() -> Vec<u8> {
    let oid_rsa = tlv(0x06, &[0x2a, 0x86, 0x48, 0x86, 0xf7, 0x0d, 0x01, 0x01, 0x01]);
    let alg = tlv(0x30, &cat(&[oid_rsa, tlv(0x05, &[])]));
    let key = tlv(0x03, &[0x00, 0x55, 0xaa]);
    tlv(0x30, &cat(&[alg, key]))
}

/// Subject Alternative Name extension with the given DNS names.
fn san_ext(dns_names: &[&str]) -> Vec<u8> {
    let entries: Vec<Vec<u8>> = dns_names.iter().map(|d| tlv(0x82, d.as_bytes())).collect();
    let value = tlv(0x30, &cat(&entries));
    let oid_san = tlv(0x06, &[0x55, 0x1d, 0x11]);
    tlv(0x30, &cat(&[oid_san, tlv(0x04, &value)]))
}

/// basicConstraints extension.
fn basic_constraints_ext(ca: bool) -> Vec<u8> {
    let value = if ca {
        tlv(0x30, &tlv(0x01, &[0xff]))
    } else {
        tlv(0x30, &[])
    };
    let oid_bc = tlv(0x06, &[0x55, 0x1d, 0x13]);
    tlv(0x30, &cat(&[oid_bc, tlv(0x04, &value)]))
}

/// A minimal X.509 v3 certificate in DER.
fn certificate(issuer: &str, subject: &str, nb: &str, na: &str, exts: &[Vec<u8>]) -> Vec<u8> {
    let version = tlv(0xa0, &tlv(0x02, &[0x02]));
    let serial = tlv(0x02, &[0x01]);
    let mut tbs_parts = vec![
        version,
        serial,
        alg_id(),
        name(issuer),
        validity(nb, na),
        name(subject),
        spki(),
    ];
    if !exts.is_empty() {
        tbs_parts.push(tlv(0xa3, &tlv(0x30, &cat(exts))));
    }
    let tbs = tlv(0x30, &cat(&tbs_parts));
    let signature = tlv(0x03, &[0x00, 0x00]);
    tlv(0x30, &cat(&[tbs, alg_id(), signature]))
}

const TS_2023_01_01: i64 = 1672531200;
const TS_2025_01_01: i64 = 1735689600;
const TS_2000_01_01: i64 = 946684800;
const TS_2001_09_09: i64 = 1000000000;
const NOW_2023_11: i64 = 1700000000;

fn host(s: &str) -> String {
    s.to_string()
}

#[test]
fn garbage_bytes_are_a_parse_error() {
    let r = parse_certificate(&[0xde, 0xad, 0xbe, 0xef]);
    assert!(matches!(r, Err(InspectionError::CertificateParseError)));
    let r2 = inspect_at(&[], &host("example.com"), 0);
    assert!(matches!(r2, Err(InspectionError::CertificateParseError)));
}

#[test]
fn parsing_extracts_the_consumed_attributes() {
    let der = certificate(
        "Test CA",
        "example.com",
        "230101000000Z",
        "250101000000Z",
        &[san_ext(&["example.com", "www.example.com"])],
    );
    let f = parse_certificate(&der).unwrap();
    assert_eq!(f.not_before, TS_2023_01_01);
    assert_eq!(f.not_after, TS_2025_01_01);
    assert_eq!(f.issuer, "CN=Test CA");
    assert_eq!(f.subject, "CN=example.com");
    assert_eq!(
        f.san_dns_names,
        Some(vec!["example.com".to_string(), "www.example.com".to_string()])
    );
    assert!(!f.is_ca);
}

#[test]
fn scenario_valid_ca_signed_certificate() {
    let der = certificate(
        "Test CA",
        "example.com",
        "230101000000Z",
        "250101000000Z",
        &[san_ext(&["example.com"])],
    );
    let r = inspect_at(&der, &host("example.com"), NOW_2023_11).unwrap();
    assert!(r.validity_status);
    assert!(r.valid_for_domain);
    assert!(!r.self_signed);
    assert!(!r.ca_valid);
    assert_eq!(r.expiration_date, "2025-01-01T00:00:00+00:00");
    assert_eq!(r.issuer, "CN=Test CA");
    assert_eq!(r.subject, "CN=example.com");
    assert_eq!(r.revocation_status, "Not implemented");
}

#[test]
fn scenario_expired_certificate() {
    let der = certificate(
        "Test CA",
        "example.com",
        "000101000000Z",
        "010909014640Z",
        &[san_ext(&["example.com"])],
    );
    let f = parse_certificate(&der).unwrap();
    assert_eq!(f.not_before, TS_2000_01_01);
    assert_eq!(f.not_after, TS_2001_09_09);
    let r = inspect_at(&der, &host("example.com"), NOW_2023_11).unwrap();
    assert!(!r.validity_status);
    assert_eq!(r.expiration_date, "2001-09-09T01:46:40+00:00");
}

#[test]
fn scenario_self_signed_certificate() {
    let der = certificate(
        "Self Signed",
        "Self Signed",
        "230101000000Z",
        "250101000000Z",
        &[],
    );
    let r = inspect_at(&der, &host("example.com"), NOW_2023_11).unwrap();
    assert!(r.self_signed);
}

#[test]
fn scenario_certificate_without_san() {
    let der = certificate(
        "Test CA",
        "example.com",
        "230101000000Z",
        "250101000000Z",
        &[],
    );
    let f = parse_certificate(&der).unwrap();
    assert_eq!(f.san_dns_names, None);
    let r = inspect_at(&der, &host("example.com"), NOW_2023_11).unwrap();
    assert!(!r.valid_for_domain);
}

#[test]
fn ca_certificate_sets_the_ca_flag() {
    let der = certificate(
        "Test CA",
        "Test CA",
        "230101000000Z",
        "250101000000Z",
        &[basic_constraints_ext(true)],
    );
    let f = parse_certificate(&der).unwrap();
    assert!(f.is_ca);
    let r = inspect_at(&der, &host("example.com"), NOW_2023_11).unwrap();
    assert!(r.ca_valid);
}

#[test]
fn basic_constraints_without_ca_bit_means_not_ca() {
    let der = certificate(
        "Test CA",
        "example.com",
        "230101000000Z",
        "250101000000Z",
        &[basic_constraints_ext(false)],
    );
    let f = parse_certificate(&der).unwrap();
    assert!(!f.is_ca);
}

#[test]
fn empty_chain_is_no_certificates_presented() {
    let r = extract_leaf(vec![]);
    assert!(matches!(r, Err(InspectionError::NoCertificatesPresented)));
    let r2 = inspect_chain(vec![], &host("example.com"), NOW_2023_11);
    assert!(matches!(r2, Err(InspectionError::NoCertificatesPresented)));
}

#[test]
fn the_leaf_is_the_first_chain_element() {
    let leaf = certificate(
        "Test CA",
        "example.com",
        "230101000000Z",
        "250101000000Z",
        &[san_ext(&["example.com"])],
    );
    let intermediate = certificate(
        "Root CA",
        "Test CA",
        "230101000000Z",
        "250101000000Z",
        &[basic_constraints_ext(true)],
    );
    let got = extract_leaf(vec![leaf.clone(), intermediate.clone()]).unwrap();
    assert_eq!(got, leaf);
    let r = inspect_chain(
        vec![leaf, intermediate],
        &host("example.com"),
        NOW_2023_11,
    )
    .unwrap();
    assert_eq!(r.subject, "CN=example.com");
    assert!(r.valid_for_domain);
    assert!(!r.ca_valid);
}

#[test]
fn inspection_is_idempotent_on_the_same_bytes() {
    let der = certificate(
        "Test CA",
        "example.com",
        "230101000000Z",
        "250101000000Z",
        &[san_ext(&["example.com"])],
    );
    let h = host("example.com");
    let r1 = inspect_at(&der, &h, NOW_2023_11).unwrap();
    let r2 = inspect_at(&der, &h, NOW_2023_11).unwrap();
    assert_eq!(r1.validity_status, r2.validity_status);
    assert_eq!(r1.expiration_date, r2.expiration_date);
    assert_eq!(r1.issuer, r2.issuer);
    assert_eq!(r1.subject, r2.subject);
    assert_eq!(r1.valid_for_domain, r2.valid_for_domain);
    assert_eq!(r1.ca_valid, r2.ca_valid);
    assert_eq!(r1.self_signed, r2.self_signed);
    assert_eq!(r1.revocation_status, r2.revocation_status);
}

#[test]
fn inspect_leaf_reads_the_clock_and_reports() {
    let der = certificate(
        "Test CA",
        "example.com",
        "230101000000Z",
        "250101000000Z",
        &[san_ext(&["example.com"])],
    );
    let r = inspect_leaf(&der, &host("example.com")).unwrap();
    assert_eq!(r.issuer, "CN=Test CA");
    assert_eq!(r.subject, "CN=example.com");
    assert!(r.valid_for_domain);
    assert!(!r.self_signed);
    assert_eq!(r.revocation_status, "Not implemented");
}
