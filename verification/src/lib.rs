//! Inspection of a TLS server's leaf certificate.
//!
//! The library is the computational core of a certificate checker: it
//! validates a requested hostname, builds the TLS client configuration used
//! for the handshake, selects the leaf certificate out of a presented chain,
//! parses the leaf's DER encoding, and evaluates the trust and validity
//! predicates that make up a certificate report. The network handshake
//! itself is left to the surrounding application; the library works on the
//! plain values that cross that boundary.

pub mod cert;
pub mod errors;
pub mod hostname;
pub mod pipeline;
pub mod report;
pub mod timefmt;
pub mod tls_config;
