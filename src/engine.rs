//! Declarations of the blocking TLS engine's types, and the calls into it.
use vstd::prelude::*;

use native_tls::Certificate as EngineCertificate;
use native_tls::Error as TlsError;
use native_tls::Identity as EngineIdentity;
use native_tls::Protocol as EngineProtocol;
use native_tls::TlsAcceptor as EngineAcceptor;
use native_tls::TlsConnector as EngineConnector;
use native_tls::TlsStream as EngineStream;

verus! {

#[verifier::external_type_specification]
#[verifier::external_body]
#[verifier::reject_recursive_types(S)]
pub struct ExTlsStream<S>(EngineStream<S>);

#[verifier::external_type_specification]
#[verifier::external_body]
#[verifier::reject_recursive_types(S)]
pub struct ExMidHandshakeTlsStream<S>(native_tls::MidHandshakeTlsStream<S>);

#[verifier::external_type_specification]
#[verifier::reject_recursive_types(S)]
pub struct ExHandshakeError<S>(native_tls::HandshakeError<S>);

#[verifier::external_type_specification]
#[verifier::external_body]
pub struct ExError(TlsError);

#[verifier::external_type_specification]
#[verifier::external_body]
pub struct ExCertificate(EngineCertificate);

#[verifier::external_type_specification]
#[verifier::external_body]
pub struct ExIdentity(EngineIdentity);

#[verifier::external_type_specification]
pub struct ExProtocol(EngineProtocol);

#[verifier::external_type_specification]
#[verifier::external_body]
pub struct ExTlsConnector(EngineConnector);

#[verifier::external_type_specification]
#[verifier::external_body]
pub struct ExTlsConnectorBuilder(native_tls::TlsConnectorBuilder);

#[verifier::external_type_specification]
#[verifier::external_body]
pub struct ExTlsAcceptor(EngineAcceptor);

/// `TlsStream::get_ref` lends the stream that the engine runs over.
pub assume_specification<S>[ EngineStream::<S>::get_ref ](s: &EngineStream<S>) -> &S;

/// Relies on `TlsStream::get_mut`, which lends the stream that the engine
/// runs over and does nothing else.
#[verifier::external_body]
pub(crate) fn transport_of<S>(s: &mut EngineStream<S>) -> &mut S
    opens_invariants none
    no_unwind
{
    s.get_mut()
}

/// `MidHandshakeTlsStream::get_mut` lends the stream of an interrupted handshake.
pub assume_specification<S>[ native_tls::MidHandshakeTlsStream::<S>::get_mut ](s: &mut native_tls::MidHandshakeTlsStream<S>) -> &mut S;

/// Relies on `MidHandshakeTlsStream::handshake`: takes an interrupted
/// handshake up again where it stopped.
#[verifier::external_body]
pub(crate) fn engine_resume<S: std::io::Read + std::io::Write>(
    m: native_tls::MidHandshakeTlsStream<S>,
) -> Result<EngineStream<S>, native_tls::HandshakeError<S>> {
    m.handshake()
}

/// Relies on `native_tls::TlsConnector::connect`: starts the client side of
/// a handshake for `domain` over `stream`. With SNI on, the engine turns the
/// domain into a C string and panics on a NUL character, hence the `requires`.
#[verifier::external_body]
pub(crate) fn engine_connect<S: std::io::Read + std::io::Write>(
    c: &EngineConnector,
    domain: &str,
    stream: S,
) -> Result<EngineStream<S>, native_tls::HandshakeError<S>>
    requires
        !domain@.contains('\0'),
{
    c.connect(domain, stream)
}

/// Relies on `native_tls::TlsAcceptor::accept`: starts the server side of a
/// handshake over `stream`.
#[verifier::external_body]
pub(crate) fn engine_accept<S: std::io::Read + std::io::Write>(
    a: &EngineAcceptor,
    stream: S,
) -> Result<EngineStream<S>, native_tls::HandshakeError<S>> {
    a.accept(stream)
}

/// Relies on `io::Read for native_tls::TlsStream`: on `Ok(n)`, `n` bytes were
/// placed at the start of `buf`, and `n <= buf.len()` (the contract of `io::Read`).
#[verifier::external_body]
pub(crate) fn engine_read<S: std::io::Read + std::io::Write>(
    s: &mut EngineStream<S>,
    buf: &mut [u8],
) -> (r: std::io::Result<usize>)
    ensures
        r matches Ok(n) ==> n <= old(buf)@.len(),
{
    std::io::Read::read(s, buf)
}

/// Relies on `io::Write for native_tls::TlsStream`: on `Ok(n)`, the first `n`
/// bytes of `buf` were taken, and `n <= buf.len()` (the contract of `io::Write`).
#[verifier::external_body]
pub(crate) fn engine_write<S: std::io::Read + std::io::Write>(
    s: &mut EngineStream<S>,
    buf: &[u8],
) -> (r: std::io::Result<usize>)
    ensures
        r matches Ok(n) ==> n <= buf@.len(),
{
    std::io::Write::write(s, buf)
}

/// Relies on `io::Write::flush for native_tls::TlsStream`.
#[verifier::external_body]
pub(crate) fn engine_flush<S: std::io::Read + std::io::Write>(
    s: &mut EngineStream<S>,
) -> std::io::Result<()> {
    std::io::Write::flush(s)
}

/// Relies on `native_tls::TlsStream::shutdown`, which sends the close
/// notification and takes a peer that already closed as success.
#[verifier::external_body]
pub(crate) fn engine_shutdown<S: std::io::Read + std::io::Write>(
    s: &mut EngineStream<S>,
) -> std::io::Result<()> {
    s.shutdown()
}

/// Relies on `native_tls::TlsStream::buffered_read_size`: the decrypted
/// bytes that a read can hand out without touching the transport.
#[verifier::external_body]
pub(crate) fn engine_buffered_read_size<S: std::io::Read + std::io::Write>(
    s: &EngineStream<S>,
) -> Result<usize, TlsError> {
    s.buffered_read_size()
}

/// Relies on `native_tls::TlsStream::peer_certificate`: the peer's leaf
/// certificate, where it sent one.
#[verifier::external_body]
pub(crate) fn engine_peer_certificate<S: std::io::Read + std::io::Write>(
    s: &EngineStream<S>,
) -> Result<Option<EngineCertificate>, TlsError> {
    s.peer_certificate()
}

/// Relies on `native_tls::TlsStream::tls_server_end_point`: the
/// tls-server-end-point channel binding data (RFC 5929).
#[verifier::external_body]
pub(crate) fn engine_tls_server_end_point<S: std::io::Read + std::io::Write>(
    s: &EngineStream<S>,
) -> Result<Option<Vec<u8>>, TlsError> {
    s.tls_server_end_point()
}

/// `TlsConnector::builder` starts from the engine's defaults.
pub assume_specification[ EngineConnector::builder ]() -> native_tls::TlsConnectorBuilder;

/// `TlsConnectorBuilder::build` makes a connector of the settings, or fails.
pub assume_specification[ native_tls::TlsConnectorBuilder::build ](b: &native_tls::TlsConnectorBuilder) -> Result<EngineConnector, TlsError>;

/// `TlsConnectorBuilder::identity` sets the client certificate.
pub assume_specification[ native_tls::TlsConnectorBuilder::identity ](b: &mut native_tls::TlsConnectorBuilder, identity: EngineIdentity) -> &mut native_tls::TlsConnectorBuilder;

/// `TlsConnectorBuilder::min_protocol_version` sets the oldest protocol allowed.
pub assume_specification[ native_tls::TlsConnectorBuilder::min_protocol_version ](b: &mut native_tls::TlsConnectorBuilder, protocol: Option<EngineProtocol>) -> &mut native_tls::TlsConnectorBuilder;

/// `TlsConnectorBuilder::max_protocol_version` sets the newest protocol allowed.
pub assume_specification[ native_tls::TlsConnectorBuilder::max_protocol_version ](b: &mut native_tls::TlsConnectorBuilder, protocol: Option<EngineProtocol>) -> &mut native_tls::TlsConnectorBuilder;

/// `TlsConnectorBuilder::add_root_certificate` adds a trust anchor.
pub assume_specification[ native_tls::TlsConnectorBuilder::add_root_certificate ](b: &mut native_tls::TlsConnectorBuilder, cert: EngineCertificate) -> &mut native_tls::TlsConnectorBuilder;

/// `TlsConnectorBuilder::danger_accept_invalid_certs` switches certificate validation off or on.
pub assume_specification[ native_tls::TlsConnectorBuilder::danger_accept_invalid_certs ](b: &mut native_tls::TlsConnectorBuilder, accept_invalid_certs: bool) -> &mut native_tls::TlsConnectorBuilder;

/// `TlsConnectorBuilder::use_sni` switches Server Name Indication on or off.
pub assume_specification[ native_tls::TlsConnectorBuilder::use_sni ](b: &mut native_tls::TlsConnectorBuilder, use_sni: bool) -> &mut native_tls::TlsConnectorBuilder;

/// `TlsConnectorBuilder::danger_accept_invalid_hostnames` switches hostname verification off or on.
pub assume_specification[ native_tls::TlsConnectorBuilder::danger_accept_invalid_hostnames ](b: &mut native_tls::TlsConnectorBuilder, accept_invalid_hostnames: bool) -> &mut native_tls::TlsConnectorBuilder;

/// `Identity::from_pkcs12` parses a DER PKCS #12 archive, decrypted with
/// `password`. The engine turns the password into a C string and panics on a
/// NUL character, hence the `requires`.
pub assume_specification[ EngineIdentity::from_pkcs12 ](der: &[u8], password: &str) -> Result<EngineIdentity, TlsError>
    requires
        !password@.contains('\0'),
;

/// `Identity::clone`: a second handle on the same identity.
pub assume_specification[ <EngineIdentity as Clone>::clone ](i: &EngineIdentity) -> EngineIdentity;

/// `Certificate::clone`: a second handle on the same certificate.
pub assume_specification[ <EngineCertificate as Clone>::clone ](c: &EngineCertificate) -> EngineCertificate;

/// `TlsAcceptor::clone`: a second handle on the same acceptor.
pub assume_specification[ <EngineAcceptor as Clone>::clone ](a: &EngineAcceptor) -> EngineAcceptor;

/// `TlsAcceptor::new` makes a server-side acceptor with the engine's defaults.
pub assume_specification[ EngineAcceptor::new ](identity: EngineIdentity) -> Result<EngineAcceptor, TlsError>;

} // verus!
