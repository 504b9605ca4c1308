use vstd::prelude::*;
use vstd::string::StringExecFns;

use crate::claims::{claims_entries, empty_claims, Claims};
use crate::errors::ErrorKind;
use crate::session::{SessionStream, SplitStream, StreamPhase};
use crate::streams::ClientTlsStream;

verus! {

/// The codes of the signature schemes that the insecure (non-verifying) server
/// verifier accepts: RSA PKCS#1 with SHA-256/384/512, RSA-PSS with SHA-256/384/512,
/// ECDSA P-256/SHA-256, P-384/SHA-384, P-521/SHA-512, and Ed25519.
pub open spec fn insecure_scheme_codes() -> Seq<u16> {
    seq![0x0401u16, 0x0501u16, 0x0601u16, 0x0804u16, 0x0805u16, 0x0806u16, 0x0403u16, 0x0503u16, 0x0603u16, 0x0807u16]
}

/// The signature schemes, by their TLS codes, that the non-verifying server verifier
/// (used when `verify_peer` is off) announces as supported.
pub fn insecure_verifier_scheme_codes() -> (codes: Vec<u16>)
    ensures
        codes@ == insecure_scheme_codes(),
{
    let codes: Vec<u16> = vec![0x0401u16, 0x0501u16, 0x0601u16, 0x0804u16, 0x0805u16, 0x0806u16, 0x0403u16, 0x0503u16, 0x0603u16, 0x0807u16];
    codes
}

/// The settings of a client builder.
pub struct ClientBuilderModel {
    /// The server address, "host:port".
    pub addr: Seq<char>,
    /// Whether the client attests itself to the server (mutual attestation).
    pub attest_self: bool,
    /// Whether the client verifies the server's RA-TLS certificate.
    pub verify_peer: bool,
    /// Claims to bind into the client's own attested certificate.
    pub custom_claims: Option<Claims>,
}

/// Builder for creating `RustlsClient` instances with custom configuration.
pub struct RustlsClientBuilder {
    addr: String,
    attest_self: bool,
    verify_peer: bool,
    custom_claims: Option<Claims>,
}

impl View for RustlsClientBuilder {
    type V = ClientBuilderModel;

    closed spec fn view(&self) -> ClientBuilderModel {
        ClientBuilderModel {
            addr: self.addr@,
            attest_self: self.attest_self,
            verify_peer: self.verify_peer,
            custom_claims: self.custom_claims,
        }
    }
}

/// Whether, and with which claims, the client presents an attested certificate.
pub enum ClientAuth {
    /// The client presents no certificate.
    NoClientAuth,
    /// The client presents a freshly attested certificate that binds these claims.
    AttestSelf(Claims),
}

/// What building a client has to set up: the decisions of `build`, before the
/// certificate generation and the TLS configuration that carry them out.
pub struct ClientConfigPlan {
    /// The server address to connect to on negotiation.
    pub addr: String,
    /// The client's own certificate, if any.
    pub client_auth: ClientAuth,
    /// `true`: the server's certificate must carry valid attestation evidence;
    /// `false`: any server certificate is accepted (for testing only).
    pub verify_server: bool,
}

impl RustlsClientBuilder {
    /// Creates a new builder for the specified address: no self-attestation,
    /// verification of the server, no custom claims.
    pub fn new(addr: &str) -> (res: Self)
        ensures
            res@ == (ClientBuilderModel {
                addr: addr@,
                attest_self: false,
                verify_peer: true,
                custom_claims: None,
            }),
    {
        RustlsClientBuilder {
            addr: String::from_str(addr),
            attest_self: false,
            verify_peer: true,
            custom_claims: None,
        }
    }

    /// Sets whether the client should attest itself to the server (mutual attestation).
    pub fn with_attest_self(self, attest_self: bool) -> (res: Self)
        ensures
            res@ == (ClientBuilderModel { attest_self, ..self@ }),
    {
        let mut this = self;
        this.attest_self = attest_self;
        this
    }

    /// Sets whether the client should verify the server's RA-TLS certificate.
    pub fn with_verify_peer(self, verify_peer: bool) -> (res: Self)
        ensures
            res@ == (ClientBuilderModel { verify_peer, ..self@ }),
    {
        let mut this = self;
        this.verify_peer = verify_peer;
        this
    }

    /// Sets custom claims to be included in the attestation certificate.
    pub fn with_custom_claims(self, claims: Claims) -> (res: Self)
        ensures
            res@ == (ClientBuilderModel { custom_claims: Some(claims), ..self@ }),
    {
        let mut this = self;
        this.custom_claims = Some(claims);
        this
    }

    /// The decisions of building a client from this builder. Custom claims go into the
    /// client's certificate, and only where the client attests itself; without custom
    /// claims the certificate binds no claims.
    pub fn into_plan(self) -> (plan: ClientConfigPlan)
        ensures
            plan.addr@ == self@.addr,
            plan.verify_server == self@.verify_peer,
            !self@.attest_self ==> plan.client_auth is NoClientAuth,
            self@.attest_self ==> (match self@.custom_claims {
                Some(c) => plan.client_auth == ClientAuth::AttestSelf(c),
                None => plan.client_auth matches ClientAuth::AttestSelf(c) && claims_entries(c)
                    == Seq::<(Seq<char>, Seq<u8>)>::empty(),
            }),
    {
        let client_auth = if self.attest_self {
            match self.custom_claims {
                Some(claims) => ClientAuth::AttestSelf(claims),
                None => ClientAuth::AttestSelf(empty_claims()),
            }
        } else {
            ClientAuth::NoClientAuth
        };
        ClientConfigPlan { addr: self.addr, client_auth, verify_server: self.verify_peer }
    }
}

/// The address and the stream phase of a client.
pub struct ClientModel {
    pub addr: Seq<char>,
    pub phase: StreamPhase,
}

/// A rustls-based TLS client with TEE remote attestation support.
pub struct RustlsClient {
    connector: tokio_rustls::TlsConnector,
    addr: String,
    session: SessionStream<ClientTlsStream>,
}

impl View for RustlsClient {
    type V = ClientModel;

    closed spec fn view(&self) -> ClientModel {
        ClientModel { addr: self.addr@, phase: self.session@ }
    }
}

/// The split step is idempotent: splitting a second time leaves the client exactly as
/// the first split left it.
pub proof fn lemma_client_split_twice_is_split_once(a: RustlsClient, b: RustlsClient, c: RustlsClient)
    requires
        a.split_step(b),
        b.split_step(c),
    ensures
        c == b,
{
    crate::session::lemma_split_twice_is_split_once(a.session, b.session, c.session);
}

impl RustlsClient {
    /// The negotiated stream, while the client holds it whole.
    pub closed spec fn held_stream(&self) -> Option<ClientTlsStream> {
        self.session.held()
    }

    /// The read half and the write half, while the stream is split.
    pub closed spec fn held_halves(&self) -> Option<(
        <ClientTlsStream as SplitStream>::Reader,
        <ClientTlsStream as SplitStream>::Writer,
    )> {
        self.session.halves()
    }

    /// `after` is what the split step makes of `self`: a full stream is split into its
    /// two halves, and any other state is left exactly as it is; nothing else changes.
    pub closed spec fn split_step(self, after: Self) -> bool {
        &&& self.session.split_step(after.session)
        &&& after.addr == self.addr && after.connector == self.connector
    }

    /// The connector that the client negotiates with.
    pub closed spec fn connector_spec(&self) -> tokio_rustls::TlsConnector {
        self.connector
    }

    /// A client that will connect to `addr` with `connector`; nothing negotiated yet.
    pub fn from_connector(connector: tokio_rustls::TlsConnector, addr: String) -> (res: Self)
        ensures
            res@ == (ClientModel { addr: addr@, phase: StreamPhase::Empty }),
            res.connector_spec() == connector,
            res.held_stream() == None::<ClientTlsStream>,
    {
        RustlsClient { connector, addr, session: SessionStream::new() }
    }

    /// The server address, "host:port".
    pub fn addr(&self) -> (a: &str)
        ensures
            a@ == self@.addr,
    {
        self.addr.as_str()
    }

    /// The connector that negotiation uses.
    pub fn connector(&self) -> (c: &tokio_rustls::TlsConnector)
        ensures
            *c == self.connector_spec(),
    {
        &self.connector
    }

    /// The phase of the negotiated stream.
    pub fn phase(&self) -> (p: StreamPhase)
        ensures
            p == self@.phase,
    {
        self.session.phase()
    }

    /// Stores the stream of a completed handshake; it is split on the first send or receive.
    pub fn complete_negotiation(&mut self, stream: ClientTlsStream)
        ensures
            final(self)@ == (ClientModel { phase: StreamPhase::Full, ..old(self)@ }),
            final(self).held_stream() == Some(stream),
            final(self).connector_spec() == old(self).connector_spec(),
    {
        self.session.install(stream);
    }

    /// Splits a full stream into its read and write halves; leaves any other state as it is.
    pub fn ensure_split(&mut self)
        ensures
            old(self).split_step(*final(self)),
            old(self)@.phase == StreamPhase::Full ==> final(self).held_halves() is Some,
            old(self)@.phase != StreamPhase::Full ==> *final(self) == *old(self),
            final(self)@ == (ClientModel { phase: crate::session::phase_after_split(old(self)@.phase), ..old(self)@ }),
            final(self).held_stream() == None::<ClientTlsStream>,
            final(self).connector_spec() == old(self).connector_spec(),
    {
        self.session.ensure_split();
    }

    /// Consumes the client and returns the underlying TLS stream.
    ///
    /// Fails with `TransportStreamNotAvailable` when negotiation has not happened or the
    /// stream was taken, and with `TransportStreamAlreadySplit` when the stream was split
    /// for send/receive.
    pub fn into_stream(self) -> (r: Result<ClientTlsStream, ErrorKind>)
        ensures
            r is Ok <==> self@.phase == StreamPhase::Full,
            r matches Ok(s) ==> self.held_stream() == Some(s),
            r matches Err(e) ==> crate::session::take_outcome(self@.phase) == Err::<(), ErrorKind>(e),
    {
        self.session.into_stream()
    }

    /// Takes the TLS stream without consuming the client; afterwards send/receive fail.
    pub fn take_stream(&mut self) -> (r: Result<ClientTlsStream, ErrorKind>)
        ensures
            r is Ok <==> old(self)@.phase == StreamPhase::Full,
            r matches Ok(s) ==> old(self).held_stream() == Some(s),
            r matches Err(e) ==> crate::session::take_outcome(old(self)@.phase) == Err::<(), ErrorKind>(e),
            final(self)@ == (ClientModel { phase: crate::session::phase_after_take(old(self)@.phase), ..old(self)@ }),
            final(self).held_stream() == None::<ClientTlsStream>,
            final(self).connector_spec() == old(self).connector_spec(),
    {
        self.session.take_stream()
    }

    /// The write half used by `send` and `shutdown`, splitting a full stream first.
    pub fn writer(&mut self) -> (r: Result<&mut <ClientTlsStream as SplitStream>::Writer, ErrorKind>)
        ensures
            r is Ok <==> crate::session::io_outcome(old(self)@.phase) is Ok,
            r matches Err(e) ==> crate::session::io_outcome(old(self)@.phase) == Err::<(), ErrorKind>(e),
            final(self)@ == (ClientModel { phase: crate::session::phase_after_split(old(self)@.phase), ..old(self)@ }),
            final(self).held_stream() == None::<ClientTlsStream>,
            final(self).connector_spec() == old(self).connector_spec(),
            r is Err ==> *final(self) == *old(self),
            old(self)@.phase == StreamPhase::Split ==> (r matches Ok(h) && *h == old(self).held_halves().unwrap().1),
            r matches Ok(h) ==> (final(self).held_halves() matches Some(hs) && hs.1 == *final(h)),
            old(self)@.phase == StreamPhase::Split ==> (final(self).held_halves() matches Some(hs) && hs.0
                == old(self).held_halves().unwrap().0),
    {
        self.session.writer()
    }

    /// The read half used by `receive`, splitting a full stream first.
    pub fn reader(&mut self) -> (r: Result<&mut <ClientTlsStream as SplitStream>::Reader, ErrorKind>)
        ensures
            r is Ok <==> crate::session::io_outcome(old(self)@.phase) is Ok,
            r matches Err(e) ==> crate::session::io_outcome(old(self)@.phase) == Err::<(), ErrorKind>(e),
            final(self)@ == (ClientModel { phase: crate::session::phase_after_split(old(self)@.phase), ..old(self)@ }),
            final(self).held_stream() == None::<ClientTlsStream>,
            final(self).connector_spec() == old(self).connector_spec(),
            r is Err ==> *final(self) == *old(self),
            old(self)@.phase == StreamPhase::Split ==> (r matches Ok(h) && *h == old(self).held_halves().unwrap().0),
            r matches Ok(h) ==> (final(self).held_halves() matches Some(hs) && hs.0 == *final(h)),
            old(self)@.phase == StreamPhase::Split ==> (final(self).held_halves() matches Some(hs) && hs.1
                == old(self).held_halves().unwrap().1),
    {
        self.session.reader()
    }
}

} // verus!
