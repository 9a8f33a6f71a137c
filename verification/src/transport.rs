//! Declarations of the RPC transport types this library carries, and the
//! trusted calls into them.
//!
//! The channel abstraction (endpoint parsing, TLS configuration, the channel
//! handle itself, the remote status) comes from the `tonic` crate. The values
//! are opaque here: the library parses and configures an endpoint, holds the
//! connected channel, and hands both to the caller's I/O layer; it never
//! looks inside them.

use tonic::transport::Error as TransportError;
use vstd::prelude::*;

verus! {

#[verifier::external_type_specification]
#[verifier::external_body]
pub struct ExChannel(tonic::transport::Channel);

#[verifier::external_type_specification]
#[verifier::external_body]
pub struct ExEndpoint(tonic::transport::Endpoint);

#[verifier::external_type_specification]
#[verifier::external_body]
pub struct ExClientTlsConfig(tonic::transport::ClientTlsConfig);

#[verifier::external_type_specification]
#[verifier::external_body]
pub struct ExTransportError(TransportError);

#[verifier::external_type_specification]
#[verifier::external_body]
pub struct ExStatus(tonic::Status);

/// Whether a host string parses as a valid endpoint URI. Named, not written
/// out: `tonic`'s URI grammar decides it, from the string alone.
pub uninterp spec fn endpoint_parses(host: Seq<char>) -> bool;

/// Relies on `tonic::transport::Endpoint::from_shared`: it parses the host
/// string as a URI and performs no I/O; it returns `Ok` exactly when the
/// string parses, and an invalid-URI error otherwise.
#[verifier::external_body]
pub(crate) fn endpoint_from_host(host: String) -> (r: Result<
    tonic::transport::Endpoint,
    TransportError,
>)
    ensures
        r is Ok <==> endpoint_parses(host@),
{
    tonic::transport::Endpoint::from_shared(host)
}

/// Relies on `tonic::transport::ClientTlsConfig::new`: a pure constructor of
/// an empty TLS configuration.
#[verifier::external_body]
pub(crate) fn tls_config_new() -> tonic::transport::ClientTlsConfig {
    tonic::transport::ClientTlsConfig::new()
}

/// Relies on `tonic::transport::ClientTlsConfig::with_native_roots`: it only
/// marks the configuration to use the platform's trusted certificate roots;
/// the roots themselves are loaded later, when the endpoint is configured.
#[verifier::external_body]
pub(crate) fn tls_with_native_roots(c: tonic::transport::ClientTlsConfig) -> (r:
    tonic::transport::ClientTlsConfig)
{
    c.with_native_roots()
}

/// Relies on `tonic::transport::Endpoint::tls_config`: it builds the TLS
/// connector for the endpoint without touching the network. It can fail —
/// when the endpoint URI names no host, or when the platform's certificate
/// store yields no usable root — so nothing is promised of which side comes
/// back; the caller handles both.
#[verifier::external_body]
pub(crate) fn endpoint_tls_config(
    e: tonic::transport::Endpoint,
    c: tonic::transport::ClientTlsConfig,
) -> (r: Result<tonic::transport::Endpoint, TransportError>)
{
    e.tls_config(c)
}

} // verus!
