//! What the listener presents to a peer: the address it binds, the host
//! names its self-signed certificate is valid for, and the one application
//! protocol it offers.
//!
//! Binding and the handshake belong to the transport. This module prepares
//! what they are given: it has `rcgen` generate the certificate, `rustls`
//! build the handshake settings around it, and `quinn` wrap those for an
//! endpoint. None of the three is looked into; their results are passed on.

use crate::error::FlowError;
use std::sync::Arc;
use vstd::prelude::*;
use vstd::utf8::is_ascii_chars;

verus! {

/// `rcgen::Error`, known to the verifier by name only.
#[verifier::external_type_specification]
#[verifier::external_body]
pub struct ExCertificateError(rcgen::Error);

/// `rustls::Error`, known to the verifier by name only.
#[verifier::external_type_specification]
#[verifier::external_body]
pub struct ExHandshakeError(rustls::Error);

/// `rustls::ServerConfig`, known to the verifier by name only.
#[verifier::external_type_specification]
#[verifier::external_body]
pub struct ExHandshakeSettings(rustls::ServerConfig);

/// `quinn::ServerConfig`, known to the verifier by name only.
#[verifier::external_type_specification]
#[verifier::external_body]
pub struct ExEndpointSettings(quinn::ServerConfig);

/// A certificate and the private key that belongs to it, both in DER.
#[derive(Debug)]
pub struct Identity {
    /// The X.509 certificate.
    pub certificate_der: Vec<u8>,
    /// The private key in PKCS#8.
    pub private_key_der: Vec<u8>,
}

/// `rcgen::generate_simple_self_signed`, with the certificate and its key
/// taken out by `Certificate::serialize_der` and
/// `Certificate::serialize_private_key_der`.
///
/// Nothing is assumed of the outcome: the key is drawn at random. Names that
/// are not ASCII are left out because the DER writer panics on them.
#[verifier::external_body]
fn generate_identity(names: Vec<String>) -> (outcome: Result<Identity, rcgen::Error>)
    requires
        forall|i: int| 0 <= i < names@.len() ==> is_ascii_chars(#[trigger] names@[i]@),
{
    let certificate = rcgen::generate_simple_self_signed(names)?;
    let certificate_der = certificate.serialize_der()?;
    Ok(Identity { certificate_der, private_key_der: certificate.serialize_private_key_der() })
}

/// The `rustls::ServerConfig` builder: safe defaults, no client
/// authentication, then `with_single_cert` on the identity; `protocols` is
/// stored in the field `alpn_protocols`.
///
/// Nothing is assumed of the outcome. The builder fails on a private key it
/// cannot parse and panics on nothing.
#[verifier::external_body]
fn handshake_settings(identity: Identity, protocols: Vec<Vec<u8>>) -> (outcome: Result<
    rustls::ServerConfig,
    rustls::Error,
>) {
    let chain = vec![rustls::Certificate(identity.certificate_der)];
    let mut settings = rustls::ServerConfig::builder()
        .with_safe_defaults()
        .with_no_client_auth()
        .with_single_cert(chain, rustls::PrivateKey(identity.private_key_der))?;
    settings.alpn_protocols = protocols;
    Ok(settings)
}

/// `quinn::ServerConfig::with_crypto`. Nothing is assumed of the result: it
/// holds a token key drawn at random.
#[verifier::external_body]
fn endpoint_settings(handshake: rustls::ServerConfig) -> (settings: quinn::ServerConfig) {
    quinn::ServerConfig::with_crypto(Arc::new(handshake))
}

/// The address the listener binds: loopback, port 4567.
pub fn listen_address() -> (address: &'static str)
    ensures
        address@ == "127.0.0.1:4567"@,
{
    "127.0.0.1:4567"
}

/// The host names the certificate is valid for.
pub fn host_names() -> (names: Vec<String>)
    ensures
        names@.len() == 3,
        names@[0]@ == "127.0.0.1"@,
        names@[1]@ == "localhost"@,
        names@[2]@ == "0.0.0.0"@,
        forall|i: int| 0 <= i < names@.len() ==> is_ascii_chars(#[trigger] names@[i]@),
{
    proof {
        reveal_strlit("127.0.0.1");
        reveal_strlit("localhost");
        reveal_strlit("0.0.0.0");
    }
    let mut names: Vec<String> = Vec::new();
    names.push("127.0.0.1".to_owned());
    names.push("localhost".to_owned());
    names.push("0.0.0.0".to_owned());
    names
}

/// The application protocols offered during negotiation: `demo` and no
/// other.
pub fn alpn_protocols() -> (protocols: Vec<Vec<u8>>)
    ensures
        protocols@.len() == 1,
        protocols@[0]@ == seq![0x64u8, 0x65u8, 0x6du8, 0x6fu8],
{
    let mut demo: Vec<u8> = Vec::new();
    demo.push(0x64);
    demo.push(0x65);
    demo.push(0x6d);
    demo.push(0x6f);
    let mut protocols: Vec<Vec<u8>> = Vec::new();
    protocols.push(demo);
    protocols
}

/// Turns the outcome of certificate generation into the flow's terms: a
/// generated identity is passed on as it is, and any failure is a handshake
/// error, since without a credential no handshake can succeed.
pub fn credential_outcome(generated: Result<Identity, rcgen::Error>) -> (outcome: Result<
    Identity,
    FlowError,
>)
    ensures
        match generated {
            Ok(identity) => outcome == Ok::<Identity, FlowError>(identity),
            Err(_) => outcome == Err::<Identity, FlowError>(FlowError::Handshake),
        },
{
    match generated {
        Ok(identity) => Ok(identity),
        Err(_) => Err(FlowError::Handshake),
    }
}

/// Generates a fresh self-signed identity for [`host_names`].
///
/// Whether generation succeeds is for the generator to say; when it does
/// not, the error is [`FlowError::Handshake`].
pub fn self_signed_identity() -> (outcome: Result<Identity, FlowError>)
    ensures
        outcome matches Err(error) ==> error == FlowError::Handshake,
{
    credential_outcome(generate_identity(host_names()))
}

/// Turns the outcome of building the handshake settings into the flow's
/// terms: a credential that is refused is a handshake error.
pub fn settings_outcome(built: Result<rustls::ServerConfig, rustls::Error>) -> (outcome: Result<
    rustls::ServerConfig,
    FlowError,
>)
    ensures
        match built {
            Ok(settings) => outcome == Ok::<rustls::ServerConfig, FlowError>(settings),
            Err(_) => outcome == Err::<rustls::ServerConfig, FlowError>(FlowError::Handshake),
        },
{
    match built {
        Ok(settings) => Ok(settings),
        Err(_) => Err(FlowError::Handshake),
    }
}

/// Everything an endpoint needs to accept the one connection: a fresh
/// identity for [`host_names`], presented without asking the client for a
/// certificate, and [`alpn_protocols`] as the protocols offered.
///
/// Whether the identity can be generated and installed is for `rcgen` and
/// `rustls` to say; when either refuses, the error is
/// [`FlowError::Handshake`].
pub fn server_config() -> (outcome: Result<quinn::ServerConfig, FlowError>)
    ensures
        outcome matches Err(error) ==> error == FlowError::Handshake,
{
    let identity = match self_signed_identity() {
        Ok(identity) => identity,
        Err(error) => {
            return Err(error);
        },
    };
    match settings_outcome(handshake_settings(identity, alpn_protocols())) {
        Ok(handshake) => Ok(endpoint_settings(handshake)),
        Err(error) => Err(error),
    }
}

} // verus!
