use vstd::prelude::*;

use crate::session::SplitStream;

verus! {

/// `tokio::net::TcpStream`.
#[verifier::external_type_specification]
#[verifier::external_body]
pub struct ExTcpStream(tokio::net::TcpStream);

/// `tokio::io::ReadHalf`.
#[verifier::external_type_specification]
#[verifier::external_body]
#[verifier::reject_recursive_types(T)]
pub struct ExReadHalf<T>(tokio::io::ReadHalf<T>);

/// `tokio::io::WriteHalf`.
#[verifier::external_type_specification]
#[verifier::external_body]
#[verifier::reject_recursive_types(T)]
pub struct ExWriteHalf<T>(tokio::io::WriteHalf<T>);

/// `tokio_rustls::client::TlsStream`.
#[verifier::external_type_specification]
#[verifier::external_body]
#[verifier::reject_recursive_types(IO)]
pub struct ExClientTlsStream<IO>(tokio_rustls::client::TlsStream<IO>);

/// `tokio_rustls::server::TlsStream`.
#[verifier::external_type_specification]
#[verifier::external_body]
#[verifier::reject_recursive_types(IO)]
pub struct ExServerTlsStream<IO>(tokio_rustls::server::TlsStream<IO>);

/// `tokio_rustls::TlsConnector`.
#[verifier::external_type_specification]
#[verifier::external_body]
pub struct ExTlsConnector(tokio_rustls::TlsConnector);

/// `tokio_rustls::TlsAcceptor`.
#[verifier::external_type_specification]
#[verifier::external_body]
pub struct ExTlsAcceptor(tokio_rustls::TlsAcceptor);

/// The TLS stream that a client holds after negotiation.
pub type ClientTlsStream = tokio_rustls::client::TlsStream<tokio::net::TcpStream>;

/// The TLS stream that a server holds after negotiation.
pub type ServerTlsStream = tokio_rustls::server::TlsStream<tokio::net::TcpStream>;

/// Calls `tokio::io::split` on a client TLS stream. Nothing is stated of the halves:
/// they are opaque handles on the one stream.
#[verifier::external_body]
fn split_client_stream(
    stream: ClientTlsStream,
) -> (tokio::io::ReadHalf<ClientTlsStream>, tokio::io::WriteHalf<ClientTlsStream>) {
    tokio::io::split(stream)
}

/// Calls `tokio::io::split` on a server TLS stream. Nothing is stated of the halves:
/// they are opaque handles on the one stream.
#[verifier::external_body]
fn split_server_stream(
    stream: ServerTlsStream,
) -> (tokio::io::ReadHalf<ServerTlsStream>, tokio::io::WriteHalf<ServerTlsStream>) {
    tokio::io::split(stream)
}

impl SplitStream for ClientTlsStream {
    type Reader = tokio::io::ReadHalf<ClientTlsStream>;
    type Writer = tokio::io::WriteHalf<ClientTlsStream>;

    fn split_halves(self) -> (Self::Reader, Self::Writer) {
        split_client_stream(self)
    }
}

impl SplitStream for ServerTlsStream {
    type Reader = tokio::io::ReadHalf<ServerTlsStream>;
    type Writer = tokio::io::WriteHalf<ServerTlsStream>;

    fn split_halves(self) -> (Self::Reader, Self::Writer) {
        split_server_stream(self)
    }
}

} // verus!
