use indexmap::IndexMap;
use rats_rs::client::{insecure_verifier_scheme_codes, ClientAuth, RustlsClientBuilder};

fn app_claims() -> IndexMap<String, Vec<u8>> {
    let mut claims = IndexMap::new();
    claims.insert("appId".to_string(), b"my-app".to_vec());
    claims
}

#[test]
fn new_builder_defaults() {
    let plan = RustlsClientBuilder::new("127.0.0.1:8080").into_plan();
    assert_eq!(plan.addr, "127.0.0.1:8080");
    assert!(matches!(plan.client_auth, ClientAuth::NoClientAuth));
    assert!(plan.verify_server);
}

#[test]
fn attest_self_without_claims_binds_no_claims() {
    let plan = RustlsClientBuilder::new("10.0.0.1:443").with_attest_self(true).into_plan();
    match plan.client_auth {
        ClientAuth::AttestSelf(claims) => assert!(claims.is_empty()),
        ClientAuth::NoClientAuth => panic!("expected a client certificate"),
    }
    assert!(plan.verify_server);
}

#[test]
fn attest_self_with_custom_claims() {
    let plan = RustlsClientBuilder::new("127.0.0.1:8080")
        .with_attest_self(true)
        .with_custom_claims(app_claims())
        .into_plan();
    match plan.client_auth {
        ClientAuth::AttestSelf(claims) => {
            assert_eq!(claims.len(), 1);
            assert_eq!(claims.get("appId").map(|v| v.as_slice()), Some(&b"my-app"[..]));
        }
        ClientAuth::NoClientAuth => panic!("expected a client certificate"),
    }
}

#[test]
fn claims_unused_without_attest_self() {
    let plan = RustlsClientBuilder::new("127.0.0.1:8080")
        .with_custom_claims(app_claims())
        .into_plan();
    assert!(matches!(plan.client_auth, ClientAuth::NoClientAuth));
}

#[test]
fn verify_peer_can_be_disabled() {
    let plan = RustlsClientBuilder::new("127.0.0.1:8080").with_verify_peer(false).into_plan();
    assert!(!plan.verify_server);
    let plan = RustlsClientBuilder::new("127.0.0.1:8080")
        .with_verify_peer(false)
        .with_verify_peer(true)
        .into_plan();
    assert!(plan.verify_server);
}

#[test]
fn later_setting_wins() {
    let plan = RustlsClientBuilder::new("127.0.0.1:8080")
        .with_attest_self(true)
        .with_attest_self(false)
        .into_plan();
    assert!(matches!(plan.client_auth, ClientAuth::NoClientAuth));
    let mut other = IndexMap::new();
    other.insert("tenant".to_string(), vec![1u8, 2, 3]);
    let plan = RustlsClientBuilder::new("127.0.0.1:8080")
        .with_attest_self(true)
        .with_custom_claims(app_claims())
        .with_custom_claims(other)
        .into_plan();
    match plan.client_auth {
        ClientAuth::AttestSelf(claims) => {
            assert_eq!(claims.get("tenant"), Some(&vec![1u8, 2, 3]));
            assert!(claims.get("appId").is_none());
        }
        ClientAuth::NoClientAuth => panic!("expected a client certificate"),
    }
}

#[test]
fn insecure_verifier_schemes_listed_in_order() {
    assert_eq!(
        insecure_verifier_scheme_codes(),
        vec![0x0401, 0x0501, 0x0601, 0x0804, 0x0805, 0x0806, 0x0403, 0x0503, 0x0603, 0x0807]
    );
}
