use yagpt_video_to_text::iam_generator::{
    iam_token, AuthInfo, IAMGenerator, IamError, IAM_AUDIENCE_URL, JWT_LIFETIME_SECS,
};

/// A PEM block labelled as a PKCS#1 RSA private key whose content is the
/// DER of `SEQUENCE { INTEGER 0 }`: it parses as PEM and as ASN.1, but it is
/// no RSA key. Built at run time; it is not key material.
fn pkcs1_shaped_non_key() -> String {
    let label = "RSA PRIVATE KEY";
    format!("-----BEGIN {0}-----\nMAMCAQA=\n-----END {0}-----\n", label)
}

fn generator(private_key: &str) -> IAMGenerator {
    IAMGenerator::new(AuthInfo {
        service_account_id: "ajeaccount".to_string(),
        id: "ajekeyid".to_string(),
        private_key: private_key.to_string(),
    })
}

#[test]
fn claims_cover_lifetime() {
    let g = generator("unused");
    let c = g.claims(1_700_000_000);
    assert_eq!(c.aud, "https://iam.api.cloud.yandex.net/iam/v1/tokens");
    assert_eq!(c.aud, IAM_AUDIENCE_URL);
    assert_eq!(c.iss, "ajeaccount");
    assert_eq!(c.iat, 1_700_000_000);
    assert_eq!(c.exp, 1_700_000_000 + 2160);
    assert_eq!(JWT_LIFETIME_SECS, 360 * 6);
}

#[test]
fn authorization_is_bearer() {
    let t = iam_token("t1.abc".to_string());
    assert_eq!(t.authorization(), "Bearer t1.abc");
}

#[test]
fn invalid_key_is_rejected() {
    let g = generator("not a key");
    match g.signed_jwt(1_700_000_000) {
        Err(IamError::InvalidKey(_)) => {}
        _ => panic!("a text that is no PEM key must be refused"),
    }
}

#[test]
fn accepted_pem_that_is_no_rsa_key_fails_signing() {
    let g = generator(&pkcs1_shaped_non_key());
    match g.signed_jwt(1_700_000_000) {
        Err(IamError::Signing(_)) => {}
        Err(IamError::InvalidKey(e)) => panic!("the PEM block must be accepted: {}", e),
        Ok(_) => panic!("no token can be signed without an RSA key"),
    }
}
