//! The client side: connector settings, and the connect that starts a handshake.
use vstd::prelude::*;

use native_tls::Certificate as EngineCertificate;
use native_tls::Identity as EngineIdentity;
use native_tls::Protocol as EngineProtocol;
use native_tls::TlsConnector as EngineConnector;

use crate::handshake::{Client, Handshake, Phase, Role};
use crate::host::Host;
use crate::io_model::has_nul;

verus! {

/// Why a connect could not start.
#[derive(Debug)]
pub enum HostError {
    /// The host holds a NUL character, which no domain can carry.
    Nul,
}

/// What a connect to the host `text` over `stream` gives: a fresh client
/// handshake for that domain over that stream, or `Nul` when the host holds
/// a NUL character.
pub open spec fn connects<S>(
    text: Seq<char>,
    stream: S,
    r: Result<Handshake<'static, S>, HostError>,
) -> bool {
    &&& r is Err <==> text.contains('\0')
    &&& r matches Ok(h) ==> {
        &&& h.phase() == Phase::Started
        &&& h.attempts() == 0
        &&& h.stream() == Some(stream)
        &&& h.role() matches Some(Role::Client(c)) && c.domain() == text
    }
}

/// Connect a client to a remote server over `stream`, with the default
/// settings: the same as `TlsConnector::new().connect(host, stream)`.
pub fn connect<S>(host: impl Into<Host>, stream: S) -> (r: Result<
    Handshake<'static, S>,
    HostError,
>)
    ensures
        exists|h: Host| connects(h.text(), stream, r),
{
    TlsConnector::new().connect(host, stream)
}

/// Settings for connecting a client, and the connect itself.
pub struct TlsConnector {
    identity: Option<EngineIdentity>,
    min_protocol: Option<EngineProtocol>,
    max_protocol: Option<EngineProtocol>,
    roots: Vec<EngineCertificate>,
    accept_invalid_certs: bool,
    use_sni: bool,
    accept_invalid_hostnames: bool,
}

impl TlsConnector {
    /// The identity for client certificate authentication, if any.
    pub closed spec fn client_identity(&self) -> Option<EngineIdentity> {
        self.identity
    }

    /// The oldest protocol allowed; `None` is the oldest the engine supports.
    pub closed spec fn min_protocol(&self) -> Option<EngineProtocol> {
        self.min_protocol
    }

    /// The newest protocol allowed; `None` is the newest the engine supports.
    pub closed spec fn max_protocol(&self) -> Option<EngineProtocol> {
        self.max_protocol
    }

    /// The trust anchors added to the system's own.
    pub closed spec fn roots(&self) -> Seq<EngineCertificate> {
        self.roots@
    }

    /// Whether certificate validation is off.
    pub closed spec fn accepts_invalid_certs(&self) -> bool {
        self.accept_invalid_certs
    }

    /// Whether Server Name Indication is on.
    pub closed spec fn uses_sni(&self) -> bool {
        self.use_sni
    }

    /// Whether hostname verification is off.
    pub closed spec fn accepts_invalid_hostnames(&self) -> bool {
        self.accept_invalid_hostnames
    }

    /// `self` and `other` agree on every setting but those that a setter
    /// names itself.
    pub open spec fn same_but(self, other: TlsConnector, field: int) -> bool {
        &&& field != 0 ==> self.client_identity() == other.client_identity()
        &&& field != 1 ==> self.min_protocol() == other.min_protocol()
        &&& field != 2 ==> self.max_protocol() == other.max_protocol()
        &&& field != 3 ==> self.roots() == other.roots()
        &&& field != 4 ==> self.accepts_invalid_certs() == other.accepts_invalid_certs()
        &&& field != 5 ==> self.uses_sni() == other.uses_sni()
        &&& field != 6 ==> self.accepts_invalid_hostnames() == other.accepts_invalid_hostnames()
    }

    /// Create a new instance: certificates and hostnames are verified, SNI is
    /// on, any protocol the engine supports is allowed, no identity, and no
    /// trust anchors beyond the system's.
    pub fn new() -> (r: TlsConnector)
        ensures
            r.client_identity() is None,
            r.min_protocol() is None,
            r.max_protocol() is None,
            r.roots().len() == 0,
            !r.accepts_invalid_certs(),
            r.uses_sni(),
            !r.accepts_invalid_hostnames(),
    {
        TlsConnector {
            identity: None,
            min_protocol: None,
            max_protocol: None,
            roots: Vec::new(),
            accept_invalid_certs: false,
            use_sni: true,
            accept_invalid_hostnames: false,
        }
    }

    /// Sets the identity to be used for client certificate authentication.
    pub fn identity(self, identity: EngineIdentity) -> (r: TlsConnector)
        ensures
            r.client_identity() == Some(identity),
            r.same_but(self, 0),
    {
        let mut this = self;
        this.identity = Some(identity);
        this
    }

    /// Sets the minimum supported protocol version.
    ///
    /// A value of `None` enables support for the oldest protocols supported by the
    /// implementation.
    pub fn min_protocol_version(self, protocol: Option<EngineProtocol>) -> (r: TlsConnector)
        ensures
            r.min_protocol() == protocol,
            r.same_but(self, 1),
    {
        let mut this = self;
        this.min_protocol = protocol;
        this
    }

    /// Sets the maximum supported protocol version.
    ///
    /// A value of `None` enables support for the newest protocols supported by the
    /// implementation. Defaults to `None`.
    pub fn max_protocol_version(self, protocol: Option<EngineProtocol>) -> (r: TlsConnector)
        ensures
            r.max_protocol() == protocol,
            r.same_but(self, 2),
    {
        let mut this = self;
        this.max_protocol = protocol;
        this
    }

    /// Adds a certificate to the set of roots that the connector will trust.
    ///
    /// The connector will use the system's trust root by default. This method can be used to
    /// add to that set when communicating with servers not trusted by the system.
    pub fn add_root_certificate(self, cert: EngineCertificate) -> (r: TlsConnector)
        ensures
            r.roots() == self.roots().push(cert),
            r.same_but(self, 3),
    {
        let mut this = self;
        this.roots.push(cert);
        this
    }

    /// Controls the use of certificate validation. Defaults to false.
    ///
    /// If invalid certificates are trusted, any certificate for any site will be trusted,
    /// expired ones included: use this only as a last resort.
    pub fn danger_accept_invalid_certs(self, accept_invalid_certs: bool) -> (r: TlsConnector)
        ensures
            r.accepts_invalid_certs() == accept_invalid_certs,
            r.same_but(self, 4),
    {
        let mut this = self;
        this.accept_invalid_certs = accept_invalid_certs;
        this
    }

    /// Controls the use of Server Name Indication (SNI). Defaults to `true`.
    pub fn use_sni(self, use_sni: bool) -> (r: TlsConnector)
        ensures
            r.uses_sni() == use_sni,
            r.same_but(self, 5),
    {
        let mut this = self;
        this.use_sni = use_sni;
        this
    }

    /// Controls the use of hostname verification. Defaults to `false`.
    ///
    /// If invalid hostnames are trusted, any valid certificate for any site will be
    /// trusted: use this only as a last resort.
    pub fn danger_accept_invalid_hostnames(self, accept_invalid_hostnames: bool) -> (r: TlsConnector)
        ensures
            r.accepts_invalid_hostnames() == accept_invalid_hostnames,
            r.same_but(self, 6),
    {
        let mut this = self;
        this.accept_invalid_hostnames = accept_invalid_hostnames;
        this
    }

    /// The engine's builder, carrying every setting of `self`.
    fn builder(&self) -> native_tls::TlsConnectorBuilder {
        let mut b = EngineConnector::builder();
        match &self.identity {
            Some(id) => {
                b.identity(id.clone());
            },
            None => {},
        }
        b.min_protocol_version(self.min_protocol);
        b.max_protocol_version(self.max_protocol);
        let mut i: usize = 0;
        while i < self.roots.len()
            decreases self.roots.len() - i,
        {
            b.add_root_certificate(self.roots[i].clone());
            i = i + 1;
        }
        b.danger_accept_invalid_certs(self.accept_invalid_certs);
        b.use_sni(self.use_sni);
        b.danger_accept_invalid_hostnames(self.accept_invalid_hostnames);
        b
    }

    /// Connect to the server that `host` names, over `stream`. A connector
    /// that the engine cannot build fails the handshake at its first poll.
    pub fn connect_to<S>(&self, host: Host, stream: S) -> (r: Result<
    Handshake<'static, S>,
    HostError,
>)
        ensures
            connects(host.text(), stream, r),
    {
        let domain = host.as_string();
        if has_nul(domain.as_str()) {
            return Err(HostError::Nul);
        }
        let client = Client::new(self.builder().build(), domain);
        Ok(Handshake::new(Role::Client(client), stream))
    }

    /// Connect to a remote server: the host names the server, `stream` reaches it.
    pub fn connect<S>(&self, host: impl Into<Host>, stream: S) -> (r: Result<
    Handshake<'static, S>,
    HostError,
>)
        ensures
            exists|h: Host| connects(h.text(), stream, r),
    {
        let host: Host = host.into();
        self.connect_to(host, stream)
    }
}

impl Default for TlsConnector {
    fn default() -> (r: TlsConnector)
        ensures
            r.client_identity() is None,
            r.min_protocol() is None,
            r.max_protocol() is None,
            r.roots().len() == 0,
            !r.accepts_invalid_certs(),
            r.uses_sni(),
            !r.accepts_invalid_hostnames(),
    {
        TlsConnector::new()
    }
}

} // verus!
