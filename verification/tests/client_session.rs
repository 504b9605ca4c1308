use std::sync::Arc;

use rats_rs::client::{insecure_verifier_scheme_codes, RustlsClient};
use rats_rs::errors::ErrorKind;
use rats_rs::session::StreamPhase;
use tokio_rustls::rustls::client::danger::{HandshakeSignatureValid, ServerCertVerified, ServerCertVerifier};
use tokio_rustls::rustls::pki_types::{CertificateDer, ServerName, UnixTime};
use tokio_rustls::rustls::{ClientConfig, DigitallySignedStruct, Error, SignatureScheme};
use tokio_rustls::TlsConnector;

/// Accepts any server certificate.
#[derive(Debug)]
struct AcceptAnyServer;

impl ServerCertVerifier for AcceptAnyServer {
    fn verify_server_cert(
        &self,
        _end_entity: &CertificateDer<'_>,
        _intermediates: &[CertificateDer<'_>],
        _server_name: &ServerName<'_>,
        _ocsp_response: &[u8],
        _now: UnixTime,
    ) -> Result<ServerCertVerified, Error> {
        Ok(ServerCertVerified::assertion())
    }

    fn verify_tls12_signature(
        &self,
        _message: &[u8],
        _cert: &CertificateDer<'_>,
        _dss: &DigitallySignedStruct,
    ) -> Result<HandshakeSignatureValid, Error> {
        Ok(HandshakeSignatureValid::assertion())
    }

    fn verify_tls13_signature(
        &self,
        _message: &[u8],
        _cert: &CertificateDer<'_>,
        _dss: &DigitallySignedStruct,
    ) -> Result<HandshakeSignatureValid, Error> {
        Ok(HandshakeSignatureValid::assertion())
    }

    fn supported_verify_schemes(&self) -> Vec<SignatureScheme> {
        insecure_verifier_scheme_codes().into_iter().map(SignatureScheme::from).collect()
    }
}

fn connector() -> TlsConnector {
    let config = ClientConfig::builder()
        .dangerous()
        .with_custom_certificate_verifier(Arc::new(AcceptAnyServer))
        .with_no_client_auth();
    TlsConnector::from(Arc::new(config))
}

#[test]
fn unnegotiated_client_has_no_stream() {
    let mut client = RustlsClient::from_connector(connector(), "127.0.0.1:8080".to_string());
    assert_eq!(client.addr(), "127.0.0.1:8080");
    assert_eq!(client.phase(), StreamPhase::Empty);
    assert!(matches!(client.take_stream(), Err(ErrorKind::TransportStreamNotAvailable)));
    assert!(matches!(client.writer(), Err(ErrorKind::TransportStreamNotAvailable)));
    assert!(matches!(client.reader(), Err(ErrorKind::TransportStreamNotAvailable)));
    assert!(matches!(client.into_stream(), Err(ErrorKind::TransportStreamNotAvailable)));
}

#[test]
fn insecure_schemes_map_to_rustls_schemes() {
    let schemes = AcceptAnyServer.supported_verify_schemes();
    assert_eq!(
        schemes,
        vec![
            SignatureScheme::RSA_PKCS1_SHA256,
            SignatureScheme::RSA_PKCS1_SHA384,
            SignatureScheme::RSA_PKCS1_SHA512,
            SignatureScheme::RSA_PSS_SHA256,
            SignatureScheme::RSA_PSS_SHA384,
            SignatureScheme::RSA_PSS_SHA512,
            SignatureScheme::ECDSA_NISTP256_SHA256,
            SignatureScheme::ECDSA_NISTP384_SHA384,
            SignatureScheme::ECDSA_NISTP521_SHA512,
            SignatureScheme::ED25519,
        ]
    );
}

#[test]
fn client_keeps_its_address() {
    let client = RustlsClient::from_connector(connector(), "[::1]:4433".to_string());
    assert_eq!(client.addr(), "[::1]:4433");
    assert_eq!(client.phase(), StreamPhase::Empty);
}
