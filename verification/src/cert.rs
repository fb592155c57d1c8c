use vstd::prelude::*;

use crate::errors::InspectionError;
use x509_parser::certificate::X509Certificate;
use x509_parser::extensions::GeneralName;
use x509_parser::prelude::FromDer;

verus! {

// What `x509_parser` computes from the DER bytes of a certificate is a
// function of those bytes alone, so each consumed attribute gets a name
// below. Nothing is assumed about the values beyond the wrappers' contracts.

/// Whether `X509Certificate::from_der` accepts the bytes.
pub uninterp spec fn x509_parses(der: Seq<u8>) -> bool;

/// The not-before bound of the validity window, as a Unix timestamp
/// (`validity().not_before.timestamp()`).
pub uninterp spec fn x509_not_before(der: Seq<u8>) -> i64;

/// The not-after bound of the validity window, as a Unix timestamp
/// (`validity().not_after.timestamp()`).
pub uninterp spec fn x509_not_after(der: Seq<u8>) -> i64;

/// The issuer distinguished name in its textual form (`issuer()`, displayed).
pub uninterp spec fn x509_issuer(der: Seq<u8>) -> Seq<char>;

/// The subject distinguished name in its textual form (`subject()`, displayed).
pub uninterp spec fn x509_subject(der: Seq<u8>) -> Seq<char>;

/// The DNS-name entries of the Subject Alternative Name extension
/// (`subject_alternative_name()`), `None` when the extension is absent or
/// cannot be decoded.
pub uninterp spec fn x509_san_dns_names(der: Seq<u8>) -> Option<Seq<Seq<char>>>;

/// The basic-constraints CA flag (`is_ca()`); `false` when the extension is
/// absent.
pub uninterp spec fn x509_is_ca(der: Seq<u8>) -> bool;

/// The attributes of a leaf certificate that the evaluator consumes, as
/// plain values extracted from the DER encoding.
pub struct CertificateFacts {
    /// Start of the validity window, seconds since the Unix epoch.
    pub not_before: i64,
    /// End of the validity window, seconds since the Unix epoch.
    pub not_after: i64,
    /// Issuer distinguished name, textual form.
    pub issuer: String,
    /// Subject distinguished name, textual form.
    pub subject: String,
    /// DNS names of the Subject Alternative Name extension; `None` when the
    /// extension is absent or undecodable.
    pub san_dns_names: Option<Vec<String>>,
    /// Basic-constraints CA flag; `false` when the extension is absent.
    pub is_ca: bool,
}

/// The mathematical content of [`CertificateFacts`].
#[verifier::ext_equal]
pub ghost struct CertificateFactsView {
    pub not_before: int,
    pub not_after: int,
    pub issuer: Seq<char>,
    pub subject: Seq<char>,
    pub san_dns_names: Option<Seq<Seq<char>>>,
    pub is_ca: bool,
}

impl View for CertificateFacts {
    type V = CertificateFactsView;

    open spec fn view(&self) -> CertificateFactsView {
        CertificateFactsView {
            not_before: self.not_before as int,
            not_after: self.not_after as int,
            issuer: self.issuer@,
            subject: self.subject@,
            san_dns_names: self.san_dns_names.deep_view(),
            is_ca: self.is_ca,
        }
    }
}

/// The facts that parsing well-formed DER bytes yields.
pub open spec fn facts_spec(der: Seq<u8>) -> CertificateFactsView {
    CertificateFactsView {
        not_before: x509_not_before(der) as int,
        not_after: x509_not_after(der) as int,
        issuer: x509_issuer(der),
        subject: x509_subject(der),
        san_dns_names: x509_san_dns_names(der),
        is_ca: x509_is_ca(der),
    }
}

/// Relies on `x509_parser`: `X509Certificate::from_der`, then
/// `validity().not_before.timestamp()` and `validity().not_after.timestamp()`,
/// which are the window bounds as Unix timestamps.
#[verifier::external_body]
fn x509_validity_of(der: &[u8]) -> (r: Option<(i64, i64)>)
    ensures
        r is Some <==> x509_parses(der@),
        r matches Some(v) ==> v.0 == x509_not_before(der@) && v.1 == x509_not_after(der@),
{
    match X509Certificate::from_der(der) {
        Ok((_, cert)) => Some((
            cert.validity().not_before.timestamp(),
            cert.validity().not_after.timestamp(),
        )),
        Err(_) => None,
    }
}

/// Relies on `x509_parser`: `X509Certificate::from_der`, then the `Display`
/// form of `issuer()`, the issuer distinguished name.
#[verifier::external_body]
fn x509_issuer_of(der: &[u8]) -> (r: Option<String>)
    ensures
        r is Some <==> x509_parses(der@),
        r matches Some(s) ==> s@ == x509_issuer(der@),
{
    match X509Certificate::from_der(der) {
        Ok((_, cert)) => Some(cert.issuer().to_string()),
        Err(_) => None,
    }
}

/// Relies on `x509_parser`: `X509Certificate::from_der`, then the `Display`
/// form of `subject()`, the subject distinguished name.
#[verifier::external_body]
fn x509_subject_of(der: &[u8]) -> (r: Option<String>)
    ensures
        r is Some <==> x509_parses(der@),
        r matches Some(s) ==> s@ == x509_subject(der@),
{
    match X509Certificate::from_der(der) {
        Ok((_, cert)) => Some(cert.subject().to_string()),
        Err(_) => None,
    }
}

/// Relies on `x509_parser`: `X509Certificate::from_der`, then
/// `subject_alternative_name()`; of the extension's general names only the
/// DNS-name entries are kept, one match arm per relevant variant. An absent
/// or undecodable extension becomes `None`.
#[verifier::external_body]
fn x509_san_of(der: &[u8]) -> (r: Option<Option<Vec<String>>>)
    ensures
        r is Some <==> x509_parses(der@),
        r matches Some(inner) ==> inner.deep_view() == x509_san_dns_names(der@),
{
    let cert = match X509Certificate::from_der(der) {
        Ok((_, cert)) => cert,
        Err(_) => return None,
    };
    match cert.subject_alternative_name() {
        Ok(Some(ext)) => {
            let names: Vec<String> = ext.value.general_names.iter().filter_map(|n| match n {
                GeneralName::DNSName(d) => Some(d.to_string()),
                _ => None,
            }).collect();
            Some(Some(names))
        }
        _ => Some(None),
    }
}

/// Relies on `x509_parser`: `X509Certificate::from_der`, then `is_ca()`, the
/// basic-constraints CA flag (`false` when the extension is absent).
#[verifier::external_body]
fn x509_is_ca_of(der: &[u8]) -> (r: Option<bool>)
    ensures
        r is Some <==> x509_parses(der@),
        r matches Some(b) ==> b == x509_is_ca(der@),
{
    match X509Certificate::from_der(der) {
        Ok((_, cert)) => Some(cert.is_ca()),
        Err(_) => None,
    }
}

/// Parses the DER encoding of a leaf certificate into the plain facts the
/// evaluator consumes.
///
/// Succeeds exactly on the byte strings that the X.509 parser accepts;
/// malformed DER is the `CertificateParseError` failure class, and no
/// partial facts are ever returned.
pub fn parse_certificate(der: &[u8]) -> (r: Result<CertificateFacts, InspectionError>)
    ensures
        r is Ok <==> x509_parses(der@),
        r matches Ok(f) ==> f@ == facts_spec(der@),
        r matches Err(e) ==> e == InspectionError::CertificateParseError,
{
    match x509_validity_of(der) {
        Some(window) => {
            let issuer = x509_issuer_of(der).unwrap();
            let subject = x509_subject_of(der).unwrap();
            let san_dns_names = x509_san_of(der).unwrap();
            let is_ca = x509_is_ca_of(der).unwrap();
            let facts = CertificateFacts {
                not_before: window.0,
                not_after: window.1,
                issuer,
                subject,
                san_dns_names,
                is_ca,
            };
            assert(facts@ =~= facts_spec(der@));
            Ok(facts)
        }
        None => Err(InspectionError::CertificateParseError),
    }
}

} // verus!
