use vstd::prelude::*;

use crate::errors::InspectionError;

verus! {

/// Whether `rustls::ServerName::try_from` accepts the string as a TLS
/// server-name identifier: a syntactically valid DNS name, or an IP address.
pub uninterp spec fn valid_server_name(hostname: Seq<char>) -> bool;

/// Relies on `rustls::ServerName::try_from(&str)`: it accepts exactly the
/// strings that parse as an ASCII DNS name or as an IP address, a function
/// of the string alone.
#[verifier::external_body]
fn server_name_accepts(hostname: &str) -> (r: bool)
    ensures
        r == valid_server_name(hostname@),
{
    rustls::ServerName::try_from(hostname).is_ok()
}

/// Checks that the requested hostname can serve as a TLS server-name
/// identifier, before any I/O is attempted.
///
/// Accepts exactly the hostnames the TLS client itself would accept;
/// rejection is the `InvalidHostname` failure class.
pub fn validate_hostname(hostname: &String) -> (r: Result<(), InspectionError>)
    ensures
        r is Ok <==> valid_server_name(hostname@),
        r matches Err(e) ==> e == InspectionError::InvalidHostname,
{
    if server_name_accepts(hostname.as_str()) {
        Ok(())
    } else {
        Err(InspectionError::InvalidHostname)
    }
}

} // verus!
