use vstd::prelude::*;

use crate::claims::{claims_entries, empty_claims, Claims};
use crate::errors::ErrorKind;
use crate::session::{SessionStream, SplitStream, StreamPhase};
use crate::streams::ServerTlsStream;

verus! {

/// The settings of a server builder; `C` is the type of the verification callback.
pub struct ServerBuilderModel<C> {
    /// The TCP stream of the accepted connection.
    pub stream: tokio::net::TcpStream,
    /// Whether the server verifies client certificates (mutual attestation).
    pub verify_peer: bool,
    /// Claims to bind into the server's attested certificate.
    pub custom_claims: Option<Claims>,
    /// The callback run on the claims of a verified client certificate.
    pub verify_callback: Option<C>,
}

/// Builder for creating `RustlsServer` instances with custom configuration.
///
/// `C` is the type of the verification callback, which receives the claims of a
/// client certificate that passed RA-TLS verification and accepts or refuses them.
pub struct RustlsServerBuilder<C> {
    stream: tokio::net::TcpStream,
    verify_peer: bool,
    custom_claims: Option<Claims>,
    verify_callback: Option<C>,
}

impl<C> View for RustlsServerBuilder<C> {
    type V = ServerBuilderModel<C>;

    closed spec fn view(&self) -> ServerBuilderModel<C> {
        ServerBuilderModel {
            stream: self.stream,
            verify_peer: self.verify_peer,
            custom_claims: self.custom_claims,
            verify_callback: self.verify_callback,
        }
    }
}

/// How the server treats client certificates.
pub enum ClientCheck<C> {
    /// Clients present no certificate.
    NoClientAuth,
    /// Clients must present a certificate with valid attestation evidence, whose claims
    /// then go to the callback, if one is set.
    Attested(Option<C>),
}

/// What building a server has to set up: the decisions of `build`, before the
/// certificate generation and the TLS configuration that carry them out.
pub struct ServerConfigPlan<C> {
    /// The TCP stream of the accepted connection.
    pub stream: tokio::net::TcpStream,
    /// The claims that the server's attested certificate binds.
    pub cert_claims: Claims,
    /// How client certificates are treated.
    pub client_check: ClientCheck<C>,
}

impl<C> RustlsServerBuilder<C> {
    /// Creates a new builder for the specified TCP stream: no client verification,
    /// no custom claims, no callback.
    pub fn new(stream: tokio::net::TcpStream) -> (res: Self)
        ensures
            res@ == (ServerBuilderModel::<C> {
                stream,
                verify_peer: false,
                custom_claims: None,
                verify_callback: None,
            }),
    {
        RustlsServerBuilder { stream, verify_peer: false, custom_claims: None, verify_callback: None }
    }

    /// Sets whether the server should verify client certificates (mutual attestation).
    pub fn with_verify_peer(self, verify_peer: bool) -> (res: Self)
        ensures
            res@ == (ServerBuilderModel { verify_peer, ..self@ }),
    {
        let mut this = self;
        this.verify_peer = verify_peer;
        this
    }

    /// Sets custom claims to be included in the attestation certificate.
    pub fn with_custom_claims(self, claims: Claims) -> (res: Self)
        ensures
            res@ == (ServerBuilderModel { custom_claims: Some(claims), ..self@ }),
    {
        let mut this = self;
        this.custom_claims = Some(claims);
        this
    }

    /// Sets a verification callback, called after RA-TLS verification of a client
    /// certificate; only used when `verify_peer` is true.
    pub fn with_verify_callback(self, callback: C) -> (res: Self)
        ensures
            res@ == (ServerBuilderModel { verify_callback: Some(callback), ..self@ }),
    {
        let mut this = self;
        this.verify_callback = Some(callback);
        this
    }

    /// The decisions of building a server from this builder: its certificate binds the
    /// custom claims (none if unset); clients are verified, through the callback if one
    /// is set, only when `verify_peer` is true.
    pub fn into_plan(self) -> (plan: ServerConfigPlan<C>)
        ensures
            plan.stream == self@.stream,
            match self@.custom_claims {
                Some(c) => plan.cert_claims == c,
                None => claims_entries(plan.cert_claims) == Seq::<(Seq<char>, Seq<u8>)>::empty(),
            },
            plan.client_check == (if self@.verify_peer {
                ClientCheck::Attested(self@.verify_callback)
            } else {
                ClientCheck::NoClientAuth
            }),
    {
        let cert_claims = match self.custom_claims {
            Some(claims) => claims,
            None => empty_claims(),
        };
        let client_check = if self.verify_peer {
            ClientCheck::Attested(self.verify_callback)
        } else {
            ClientCheck::NoClientAuth
        };
        ServerConfigPlan { stream: self.stream, cert_claims, client_check }
    }
}

/// Whether the accepted TCP stream still waits for the handshake, and the stream phase.
pub struct ServerModel {
    pub tcp_pending: bool,
    pub phase: StreamPhase,
}

/// A rustls-based TLS server with TEE remote attestation support.
pub struct RustlsServer {
    acceptor: tokio_rustls::TlsAcceptor,
    stream: Option<tokio::net::TcpStream>,
    session: SessionStream<ServerTlsStream>,
}

impl View for RustlsServer {
    type V = ServerModel;

    closed spec fn view(&self) -> ServerModel {
        ServerModel { tcp_pending: self.stream is Some, phase: self.session@ }
    }
}

/// The split step is idempotent: splitting a second time leaves the server exactly as
/// the first split left it.
pub proof fn lemma_server_split_twice_is_split_once(a: RustlsServer, b: RustlsServer, c: RustlsServer)
    requires
        a.split_step(b),
        b.split_step(c),
    ensures
        c == b,
{
    crate::session::lemma_split_twice_is_split_once(a.session, b.session, c.session);
}

impl RustlsServer {
    /// The negotiated stream, while the server holds it whole.
    pub closed spec fn held_stream(&self) -> Option<ServerTlsStream> {
        self.session.held()
    }

    /// The read half and the write half, while the stream is split.
    pub closed spec fn held_halves(&self) -> Option<(
        <ServerTlsStream as SplitStream>::Reader,
        <ServerTlsStream as SplitStream>::Writer,
    )> {
        self.session.halves()
    }

    /// `after` is what the split step makes of `self`: a full stream is split into its
    /// two halves, and any other state is left exactly as it is; nothing else changes.
    pub closed spec fn split_step(self, after: Self) -> bool {
        &&& self.session.split_step(after.session)
        &&& after.stream == self.stream && after.acceptor == self.acceptor
    }

    /// The accepted TCP stream that waits for the handshake.
    pub closed spec fn pending_tcp(&self) -> Option<tokio::net::TcpStream> {
        self.stream
    }

    /// The acceptor that the server negotiates with.
    pub closed spec fn acceptor_spec(&self) -> tokio_rustls::TlsAcceptor {
        self.acceptor
    }

    /// A server that will run the handshake on `stream` with `acceptor`.
    pub fn from_acceptor(acceptor: tokio_rustls::TlsAcceptor, stream: tokio::net::TcpStream) -> (res: Self)
        ensures
            res@ == (ServerModel { tcp_pending: true, phase: StreamPhase::Empty }),
            res.pending_tcp() == Some(stream),
            res.acceptor_spec() == acceptor,
            res.held_stream() == None::<ServerTlsStream>,
    {
        RustlsServer { acceptor, stream: Some(stream), session: SessionStream::new() }
    }

    /// The acceptor that negotiation uses.
    pub fn acceptor(&self) -> (a: &tokio_rustls::TlsAcceptor)
        ensures
            *a == self.acceptor_spec(),
    {
        &self.acceptor
    }

    /// Whether the accepted TCP stream still waits for the handshake.
    pub fn has_pending_tcp(&self) -> (b: bool)
        ensures
            b == self@.tcp_pending,
    {
        self.stream.is_some()
    }

    /// The phase of the negotiated stream.
    pub fn phase(&self) -> (p: StreamPhase)
        ensures
            p == self@.phase,
    {
        self.session.phase()
    }

    /// Hands out the accepted TCP stream for the handshake; a server negotiates once.
    pub fn begin_negotiation(&mut self) -> (s: tokio::net::TcpStream)
        requires
            old(self)@.tcp_pending,
        ensures
            old(self).pending_tcp() == Some(s),
            final(self)@ == (ServerModel { tcp_pending: false, ..old(self)@ }),
            final(self).pending_tcp() == None::<tokio::net::TcpStream>,
            final(self).held_stream() == old(self).held_stream(),
            final(self).acceptor_spec() == old(self).acceptor_spec(),
    {
        self.stream.take().unwrap()
    }

    /// Stores the stream of a completed handshake; it is split on the first send or receive.
    pub fn complete_negotiation(&mut self, stream: ServerTlsStream)
        ensures
            final(self)@ == (ServerModel { phase: StreamPhase::Full, ..old(self)@ }),
            final(self).held_stream() == Some(stream),
            final(self).pending_tcp() == old(self).pending_tcp(),
            final(self).acceptor_spec() == old(self).acceptor_spec(),
    {
        self.session.install(stream);
    }

    /// Splits a full stream into its read and write halves; leaves any other state as it is.
    pub fn ensure_split(&mut self)
        ensures
            old(self).split_step(*final(self)),
            old(self)@.phase == StreamPhase::Full ==> final(self).held_halves() is Some,
            old(self)@.phase != StreamPhase::Full ==> *final(self) == *old(self),
            final(self)@ == (ServerModel { phase: crate::session::phase_after_split(old(self)@.phase), ..old(self)@ }),
            final(self).held_stream() == None::<ServerTlsStream>,
            final(self).pending_tcp() == old(self).pending_tcp(),
            final(self).acceptor_spec() == old(self).acceptor_spec(),
    {
        self.session.ensure_split();
    }

    /// Consumes the server and returns the underlying TLS stream.
    ///
    /// Fails with `TransportStreamNotAvailable` when negotiation has not happened or the
    /// stream was taken, and with `TransportStreamAlreadySplit` when the stream was split
    /// for send/receive.
    pub fn into_stream(self) -> (r: Result<ServerTlsStream, ErrorKind>)
        ensures
            r is Ok <==> self@.phase == StreamPhase::Full,
            r matches Ok(s) ==> self.held_stream() == Some(s),
            r matches Err(e) ==> crate::session::take_outcome(self@.phase) == Err::<(), ErrorKind>(e),
    {
        self.session.into_stream()
    }

    /// Takes the TLS stream without consuming the server; afterwards send/receive fail.
    pub fn take_stream(&mut self) -> (r: Result<ServerTlsStream, ErrorKind>)
        ensures
            r is Ok <==> old(self)@.phase == StreamPhase::Full,
            r matches Ok(s) ==> old(self).held_stream() == Some(s),
            r matches Err(e) ==> crate::session::take_outcome(old(self)@.phase) == Err::<(), ErrorKind>(e),
            final(self)@ == (ServerModel { phase: crate::session::phase_after_take(old(self)@.phase), ..old(self)@ }),
            final(self).held_stream() == None::<ServerTlsStream>,
            final(self).pending_tcp() == old(self).pending_tcp(),
            final(self).acceptor_spec() == old(self).acceptor_spec(),
    {
        self.session.take_stream()
    }

    /// The write half used by `send` and `shutdown`, splitting a full stream first.
    pub fn writer(&mut self) -> (r: Result<&mut <ServerTlsStream as SplitStream>::Writer, ErrorKind>)
        ensures
            r is Ok <==> crate::session::io_outcome(old(self)@.phase) is Ok,
            r matches Err(e) ==> crate::session::io_outcome(old(self)@.phase) == Err::<(), ErrorKind>(e),
            final(self)@ == (ServerModel { phase: crate::session::phase_after_split(old(self)@.phase), ..old(self)@ }),
            final(self).held_stream() == None::<ServerTlsStream>,
            final(self).pending_tcp() == old(self).pending_tcp(),
            final(self).acceptor_spec() == old(self).acceptor_spec(),
            r is Err ==> *final(self) == *old(self),
            old(self)@.phase == StreamPhase::Split ==> (r matches Ok(h) && *h == old(self).held_halves().unwrap().1),
            r matches Ok(h) ==> (final(self).held_halves() matches Some(hs) && hs.1 == *final(h)),
            old(self)@.phase == StreamPhase::Split ==> (final(self).held_halves() matches Some(hs) && hs.0
                == old(self).held_halves().unwrap().0),
    {
        self.session.writer()
    }

    /// The read half used by `receive`, splitting a full stream first.
    pub fn reader(&mut self) -> (r: Result<&mut <ServerTlsStream as SplitStream>::Reader, ErrorKind>)
        ensures
            r is Ok <==> crate::session::io_outcome(old(self)@.phase) is Ok,
            r matches Err(e) ==> crate::session::io_outcome(old(self)@.phase) == Err::<(), ErrorKind>(e),
            final(self)@ == (ServerModel { phase: crate::session::phase_after_split(old(self)@.phase), ..old(self)@ }),
            final(self).held_stream() == None::<ServerTlsStream>,
            final(self).pending_tcp() == old(self).pending_tcp(),
            final(self).acceptor_spec() == old(self).acceptor_spec(),
            r is Err ==> *final(self) == *old(self),
            old(self)@.phase == StreamPhase::Split ==> (r matches Ok(h) && *h == old(self).held_halves().unwrap().0),
            r matches Ok(h) ==> (final(self).held_halves() matches Some(hs) && hs.0 == *final(h)),
            old(self)@.phase == StreamPhase::Split ==> (final(self).held_halves() matches Some(hs) && hs.1
                == old(self).held_halves().unwrap().1),
    {
        self.session.reader()
    }
}

} // verus!
