//! The server side: an acceptor made from an identity, with `accept`.
use vstd::prelude::*;

use native_tls::Error as TlsError;
use native_tls::Identity as EngineIdentity;
use native_tls::TlsAcceptor as EngineAcceptor;

use crate::handshake::{Handshake, Phase, Role};
use crate::io_model::has_nul;

verus! {

/// A wrapper around a `native_tls::TlsAcceptor`, with an asynchronous `accept`.
#[derive(Clone)]
pub struct TlsAcceptor(EngineAcceptor);

/// An error returned from creating an acceptor.
#[derive(Debug)]
pub enum Error {
    /// The engine refused the identity or the settings.
    NativeTls(TlsError),
    /// Reading the identity failed.
    Io(std::io::Error),
    /// The password holds a NUL character, which the engine cannot take.
    InvalidPassword,
}

impl TlsAcceptor {
    /// The engine's acceptor.
    pub closed spec fn engine(&self) -> EngineAcceptor {
        self.0
    }

    /// Create a new acceptor from the bytes of a PKCS #12 identity archive
    /// and the password that decrypts it. A password holding a NUL character
    /// is refused before the engine sees it; anything else that fails, fails
    /// in the engine, and is reported as its error.
    pub fn new(identity: &[u8], password: &str) -> (r: Result<TlsAcceptor, Error>)
        ensures
            password@.contains('\0') <==> r matches Err(Error::InvalidPassword),
            r matches Err(e) ==> (e is NativeTls || e is InvalidPassword),
    {
        if has_nul(password) {
            return Err(Error::InvalidPassword);
        }
        match EngineIdentity::from_pkcs12(identity, password) {
            Ok(id) => TlsAcceptor::from_identity(EngineAcceptor::new(id)),
            Err(e) => Err(Error::NativeTls(e)),
        }
    }

    /// The acceptor that the engine made, or its error.
    pub fn from_identity(made: Result<EngineAcceptor, TlsError>) -> (r: Result<TlsAcceptor, Error>)
        ensures
            match made {
                Ok(a) => r matches Ok(t) && t.engine() == a,
                Err(e) => r == Err::<TlsAcceptor, Error>(Error::NativeTls(e)),
            },
    {
        match made {
            Ok(a) => Ok(TlsAcceptor(a)),
            Err(e) => Err(Error::NativeTls(e)),
        }
    }

    /// Accepts a new client connection over `stream`: the server half of the
    /// handshake, as a future of the established session, not yet started.
    pub fn accept<'a, S>(&'a self, stream: S) -> (r: Handshake<'a, S>)
        ensures
            r.phase() == Phase::Started,
            r.attempts() == 0,
            r.stream() == Some(stream),
            r.role() matches Some(Role::Server(a)) && *a == self.engine(),
    {
        Handshake::new(Role::Server(&self.0), stream)
    }
}

impl From<EngineAcceptor> for TlsAcceptor {
    fn from(inner: EngineAcceptor) -> TlsAcceptor {
        TlsAcceptor(inner)
    }
}

impl vstd::std_specs::convert::FromSpecImpl<EngineAcceptor> for TlsAcceptor {
    open spec fn obeys_from_spec() -> bool {
        true
    }

    closed spec fn from_spec(v: EngineAcceptor) -> TlsAcceptor {
        TlsAcceptor(v)
    }
}

} // verus!
