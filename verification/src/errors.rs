use vstd::prelude::*;

verus! {

/// The failure classes of the inspection pipeline.
///
/// Every request either yields a full certificate report or ends in exactly
/// one of these errors; no partial report is ever produced. Conditions that
/// the evaluator recovers from locally (a missing Subject Alternative Name
/// extension, a missing basic-constraints extension) are not errors: they
/// degrade the corresponding report field to its documented default.
#[derive(Clone, Copy, Debug, PartialEq, Eq, Structural)]
pub enum InspectionError {
    /// The requested hostname is not a syntactically valid TLS server name.
    InvalidHostname,
    /// The transport connection could not be opened (unreachable, refused,
    /// or timed out).
    TransportConnectFailed,
    /// The TLS handshake failed, including certificate-chain verification
    /// failure against the trust store.
    TlsHandshakeFailed,
    /// The handshake succeeded but the peer presented an empty chain.
    NoCertificatesPresented,
    /// The leaf certificate's DER encoding could not be parsed.
    CertificateParseError,
}

impl InspectionError {
    /// The message reported for this failure class.
    pub open spec fn message_spec(self) -> Seq<char> {
        match self {
            InspectionError::InvalidHostname => "Invalid hostname"@,
            InspectionError::TransportConnectFailed => "TCP connect error"@,
            InspectionError::TlsHandshakeFailed => "TLS connect error"@,
            InspectionError::NoCertificatesPresented => "No certificate found"@,
            InspectionError::CertificateParseError => "Failed to parse certificate"@,
        }
    }

    /// A short human-readable message, distinct for each failure class.
    pub fn message(&self) -> (r: String)
        ensures
            r@ == self.message_spec(),
    {
        match self {
            InspectionError::InvalidHostname => String::from_str("Invalid hostname"),
            InspectionError::TransportConnectFailed => String::from_str("TCP connect error"),
            InspectionError::TlsHandshakeFailed => String::from_str("TLS connect error"),
            InspectionError::NoCertificatesPresented => String::from_str("No certificate found"),
            InspectionError::CertificateParseError => String::from_str("Failed to parse certificate"),
        }
    }
}

} // verus!
