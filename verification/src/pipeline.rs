use vstd::prelude::*;

use crate::cert::facts_spec;
use crate::cert::parse_certificate;
use crate::cert::x509_parses;
use crate::errors::InspectionError;
use crate::report::evaluate_certificate;
use crate::report::report_spec;
use crate::report::CertificateInfo;
use crate::report::CertificateInfoView;
use crate::timefmt::current_unix_time;

verus! {

/// Selects the leaf out of the certificate chain a peer presented: the
/// chain is ordered leaf first, so the leaf is its first element.
///
/// An empty chain is protocol-valid but semantically anomalous: it is the
/// `NoCertificatesPresented` failure class, never a default report.
pub fn extract_leaf(chain: Vec<Vec<u8>>) -> (r: Result<Vec<u8>, InspectionError>)
    ensures
        chain@.len() == 0 ==> (r matches Err(e) && e == InspectionError::NoCertificatesPresented),
        chain@.len() > 0 ==> (r matches Ok(leaf) && leaf == chain@[0]),
{
    let mut certs = chain;
    if certs.len() == 0 {
        Err(InspectionError::NoCertificatesPresented)
    } else {
        Ok(certs.remove(0))
    }
}

/// Parses the leaf certificate's DER bytes and evaluates the report against
/// the requested hostname at the given time (seconds since the Unix epoch).
///
/// Succeeds exactly on the byte strings the X.509 parser accepts, and then
/// the report is the one [`report_spec`] pins down; malformed DER is the
/// `CertificateParseError` failure class, with no partial report.
pub fn inspect_at(der: &[u8], hostname: &String, now: i64) -> (r: Result<
    CertificateInfo,
    InspectionError,
>)
    ensures
        r is Ok <==> x509_parses(der@),
        r matches Ok(report) ==> report@ == report_spec(facts_spec(der@), hostname@, now as int),
        r matches Err(e) ==> e == InspectionError::CertificateParseError,
{
    match parse_certificate(der) {
        Ok(facts) => Ok(evaluate_certificate(&facts, hostname, now)),
        Err(e) => Err(e),
    }
}

/// Inspects the leaf certificate at the current time.
///
/// The clock is read once; whatever instant it yields, the report is the
/// evaluation of these bytes against this hostname at that instant.
pub fn inspect_leaf(der: &[u8], hostname: &String) -> (r: Result<
    CertificateInfo,
    InspectionError,
>)
    ensures
        r is Ok <==> x509_parses(der@),
        r matches Ok(report) ==> (exists|now: int|
            report@ == report_spec(facts_spec(der@), hostname@, now)),
        r matches Err(e) ==> e == InspectionError::CertificateParseError,
{
    let now: i64 = current_unix_time();
    inspect_at(der, hostname, now)
}

/// Runs the certificate extractor and the evaluator on a presented chain:
/// selects the leaf, parses it, and computes the report for the requested
/// hostname at the given time.
pub fn inspect_chain(chain: Vec<Vec<u8>>, hostname: &String, now: i64) -> (r: Result<
    CertificateInfo,
    InspectionError,
>)
    ensures
        chain@.len() == 0 ==> (r matches Err(e) && e == InspectionError::NoCertificatesPresented),
        chain@.len() > 0 ==> {
            &&& r is Ok <==> x509_parses(chain@[0]@)
            &&& (r matches Ok(report) ==> report@ == report_spec(
                facts_spec(chain@[0]@),
                hostname@,
                now as int,
            ))
            &&& (r matches Err(e) ==> e == InspectionError::CertificateParseError)
        },
{
    match extract_leaf(chain) {
        Ok(leaf) => inspect_at(leaf.as_slice(), hostname, now),
        Err(e) => Err(e),
    }
}

/// Evaluation is deterministic: two reports computed from the same
/// certificate bytes, the same requested hostname and the same instant are
/// identical. Each public inspection function pins its report to
/// [`report_spec`], so any two results of the same inputs coincide.
pub proof fn lemma_inspection_deterministic(
    der: Seq<u8>,
    hostname: Seq<char>,
    now: int,
    r1: CertificateInfoView,
    r2: CertificateInfoView,
)
    requires
        r1 == report_spec(facts_spec(der), hostname, now),
        r2 == report_spec(facts_spec(der), hostname, now),
    ensures
        r1 == r2,
{
}

} // verus!
