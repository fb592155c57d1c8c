use vstd::prelude::*;

use crate::cert::CertificateFacts;
use crate::cert::CertificateFactsView;
use crate::timefmt::expiration_text;
use crate::timefmt::format_expiration;

verus! {

/// The report computed for one certificate and one requested hostname.
///
/// A pure value: every field is a function of the certificate's facts, the
/// hostname and the evaluation time, and nothing else.
pub struct CertificateInfo {
    /// Whether the evaluation time lies within the validity window.
    pub validity_status: bool,
    /// The not-after bound as an RFC 3339 timestamp, or the explicit
    /// "Invalid date" marker when the timestamp cannot be rendered.
    pub expiration_date: String,
    /// Issuer distinguished name, textual form.
    pub issuer: String,
    /// Subject distinguished name, textual form.
    pub subject: String,
    /// Whether the SAN extension carries a DNS name exactly equal to the
    /// requested hostname.
    pub valid_for_domain: bool,
    /// The basic-constraints CA flag.
    pub ca_valid: bool,
    /// Whether issuer and subject distinguished names are textually equal
    /// (a heuristic, not a cryptographic self-signature check).
    pub self_signed: bool,
    /// Revocation checking is a stubbed capability: always the fixed
    /// placeholder text.
    pub revocation_status: String,
}

/// The mathematical content of [`CertificateInfo`].
#[verifier::ext_equal]
pub ghost struct CertificateInfoView {
    pub validity_status: bool,
    pub expiration_date: Seq<char>,
    pub issuer: Seq<char>,
    pub subject: Seq<char>,
    pub valid_for_domain: bool,
    pub ca_valid: bool,
    pub self_signed: bool,
    pub revocation_status: Seq<char>,
}

impl View for CertificateInfo {
    type V = CertificateInfoView;

    open spec fn view(&self) -> CertificateInfoView {
        CertificateInfoView {
            validity_status: self.validity_status,
            expiration_date: self.expiration_date@,
            issuer: self.issuer@,
            subject: self.subject@,
            valid_for_domain: self.valid_for_domain,
            ca_valid: self.ca_valid,
            self_signed: self.self_signed,
            revocation_status: self.revocation_status@,
        }
    }
}

/// Whether `now` lies within the closed validity window.
pub open spec fn within_validity(not_before: int, not_after: int, now: int) -> bool {
    not_before <= now <= not_after
}

/// Whether the SAN DNS names carry an entry exactly equal to the hostname.
/// An absent (or undecodable) extension never matches; the comparison is
/// exact, with no wildcard expansion and no case folding.
pub open spec fn san_matches(san: Option<Seq<Seq<char>>>, hostname: Seq<char>) -> bool {
    match san {
        Option::Some(names) => names.contains(hostname),
        Option::None => false,
    }
}

/// The report that evaluating a certificate's facts against a hostname at
/// time `now` (seconds since the Unix epoch) must yield.
pub open spec fn report_spec(
    facts: CertificateFactsView,
    hostname: Seq<char>,
    now: int,
) -> CertificateInfoView {
    CertificateInfoView {
        validity_status: within_validity(facts.not_before, facts.not_after, now),
        expiration_date: expiration_text(facts.not_after as i64),
        issuer: facts.issuer,
        subject: facts.subject,
        valid_for_domain: san_matches(facts.san_dns_names, hostname),
        ca_valid: facts.is_ca,
        self_signed: facts.issuer == facts.subject,
        revocation_status: "Not implemented"@,
    }
}

/// Whether the vector holds a string equal to the target.
fn contains_string(names: &Vec<String>, target: &String) -> (r: bool)
    ensures
        r == names.deep_view().contains(target@),
{
    let mut i: usize = 0;
    while i < names.len()
        invariant
            0 <= i <= names.len(),
            forall|j: int| 0 <= j < i ==> names.deep_view()[j] != target@,
        decreases names.len() - i,
    {
        if names[i].eq(target) {
            assert(names.deep_view()[i as int] == target@);
            return true;
        }
        i = i + 1;
    }
    assert(forall|j: int| 0 <= j < names.deep_view().len() ==> names.deep_view()[j] != target@);
    false
}

/// Evaluates the facts of one leaf certificate against the requested
/// hostname at the given time, yielding the full report.
///
/// Every field is pinned by [`report_spec`]: the validity flag compares
/// `now` against the closed window, the domain flag is the exact SAN
/// comparison (absent SAN means `false`, never an error), the self-signed
/// flag is textual equality of issuer and subject, the CA flag is copied,
/// and the revocation status is the fixed placeholder.
pub fn evaluate_certificate(facts: &CertificateFacts, hostname: &String, now: i64) -> (r:
    CertificateInfo)
    ensures
        r@ == report_spec(facts@, hostname@, now as int),
{
    let validity_status = facts.not_before <= now && now <= facts.not_after;
    let expiration_date = format_expiration(facts.not_after);
    let valid_for_domain = match &facts.san_dns_names {
        Option::Some(names) => contains_string(names, hostname),
        Option::None => false,
    };
    let self_signed = facts.issuer.eq(&facts.subject);
    let r = CertificateInfo {
        validity_status,
        expiration_date,
        issuer: facts.issuer.clone(),
        subject: facts.subject.clone(),
        valid_for_domain,
        ca_valid: facts.is_ca,
        self_signed,
        revocation_status: String::from_str("Not implemented"),
    };
    assert(r@ =~= report_spec(facts@, hostname@, now as int));
    r
}

/// The report marks a certificate time-valid exactly when the evaluation
/// time lies within the closed window from not-before to not-after, and
/// time-invalid for every instant outside it.
pub proof fn lemma_validity_window(facts: CertificateFactsView, hostname: Seq<char>, now: int)
    ensures
        report_spec(facts, hostname, now).validity_status <==> (facts.not_before <= now
            <= facts.not_after),
{
}

/// The report marks a certificate self-signed exactly when its issuer and
/// subject distinguished names are textually equal.
pub proof fn lemma_self_signed_iff_names_equal(
    facts: CertificateFactsView,
    hostname: Seq<char>,
    now: int,
)
    ensures
        report_spec(facts, hostname, now).self_signed <==> facts.issuer == facts.subject,
{
}

/// A SAN extension holding a DNS name exactly equal to the requested
/// hostname makes the report valid for that domain; an absent SAN extension
/// never does.
pub proof fn lemma_domain_match(facts: CertificateFactsView, hostname: Seq<char>, now: int)
    ensures
        (facts.san_dns_names matches Option::Some(names) && names.contains(hostname))
            ==> report_spec(facts, hostname, now).valid_for_domain,
        facts.san_dns_names is None ==> !report_spec(facts, hostname, now).valid_for_domain,
{
}

/// The revocation status of every report is the fixed placeholder text,
/// whatever the certificate, hostname and time.
pub proof fn lemma_revocation_placeholder(
    facts: CertificateFactsView,
    hostname: Seq<char>,
    now: int,
)
    ensures
        report_spec(facts, hostname, now).revocation_status == "Not implemented"@,
{
}

} // verus!
