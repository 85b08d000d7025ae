//! Service-account authentication: the claims of the JWT that is exchanged
//! for an IAM token, the signed JWT itself, and the authorization header that
//! carries the token. The application reads the key file, takes the time and
//! calls the token service.

use vstd::prelude::*;
use crate::text::concat2;
use vstd::utf8::encode_utf8;
use jsonwebtoken::{EncodingKey, errors::Error as JwtError};

verus! {

#[verifier::external_type_specification]
#[verifier::external_body]
pub struct ExEncodingKey(EncodingKey);

#[verifier::external_type_specification]
#[verifier::external_body]
pub struct ExJwtError(JwtError);

/// The token service.
pub const IAM_GRPC_URL: &'static str = "https://iam.api.cloud.yandex.net";

/// The audience of the JWT.
pub const IAM_AUDIENCE_URL: &'static str = "https://iam.api.cloud.yandex.net/iam/v1/tokens";

/// How long the JWT is valid: 2160 seconds.
pub const JWT_LIFETIME_SECS: u64 = 2160;

/// The key of a service account, as read from its authorized-key file.
pub struct AuthInfo {
    pub service_account_id: String,
    pub id: String,
    pub private_key: String,
}

/// The claims of the JWT.
pub struct Claims {
    pub aud: String,
    pub iss: String,
    pub iat: u64,
    pub exp: u64,
}

/// An IAM token issued by the cloud.
#[derive(Clone)]
pub struct IAMToken {
    pub token: String,
}

/// Produces IAM tokens for one service account.
pub struct IAMGenerator {
    pub auth_info: AuthInfo,
}

/// Why no JWT could be made; the text is the debug rendering of the error.
pub enum IamError {
    /// The private key is not an RSA key in PEM form.
    InvalidKey(String),
    /// The JWT could not be signed.
    Signing(String),
}

/// Whether `jsonwebtoken::EncodingKey::from_rsa_pem` accepts these bytes.
pub uninterp spec fn rsa_pem_accepted(pem: Seq<u8>) -> bool;

/// The signed part of a JWT with header {typ "JWT", alg "PS256", kid} and
/// claims {aud, iss, iat, exp}: the two base64url-encoded JSON parts joined
/// by a dot, as `jsonwebtoken::encode` builds them.
pub uninterp spec fn jwt_signing_input(kid: Seq<char>, aud: Seq<char>, iss: Seq<char>, iat: u64, exp: u64) -> Seq<char>;

/// Whether `token` is `input`, a dot, then a signature.
pub open spec fn signs(token: Seq<char>, input: Seq<char>) -> bool {
    &&& token.len() > input.len()
    &&& token.take(input.len() as int) == input
    &&& token[input.len() as int] == '.'
}

/// Whether `m` is the debug rendering of a jsonwebtoken error: it begins
/// with "Error(".
pub open spec fn is_error_text(m: Seq<char>) -> bool {
    m.len() >= 6 && m.take(6) == "Error("@
}

/// Reads an RSA private key in PEM form.
///
/// Trusted: calls `jsonwebtoken::EncodingKey::from_rsa_pem`; whether it
/// succeeds is named by `rsa_pem_accepted`.
#[verifier::external_body]
fn rsa_key_from_pem(pem: &[u8]) -> (r: Result<EncodingKey, JwtError>)
    ensures
        r is Ok <==> rsa_pem_accepted(pem@),
{
    EncodingKey::from_rsa_pem(pem)
}

/// Signs the claims with PS256 under the key id `kid`.
///
/// Trusted: calls `jsonwebtoken::encode` with the header {alg PS256, kid} and
/// the claims as a JSON object with the fields in the order aud, iss, iat,
/// exp. Its source returns the signing input, a dot and the base64url
/// signature; the signature is randomized (PSS) and is not stated. Whether
/// signing fails is not stated either. The signing input begins with the
/// unpadded base64url encoding of the header's JSON text, which begins with
/// `{` (byte 0x7B), so the token's first character is `e`.
#[verifier::external_body]
fn encode_ps256(kid: &str, claims: &Claims, key: &EncodingKey) -> (r: Result<String, JwtError>)
    ensures
        r matches Ok(t) ==> signs(t@, jwt_signing_input(kid@, claims.aud@, claims.iss@, claims.iat, claims.exp)),
        r matches Ok(t) ==> (t@.len() > 0 && t@[0] == 'e'),
{
    let header = jsonwebtoken::Header { kid: Some(kid.to_string()), ..jsonwebtoken::Header::new(jsonwebtoken::Algorithm::PS256) };
    let mut body = serde_json::Map::new();
    body.insert("aud".to_string(), serde_json::Value::from(claims.aud.clone()));
    body.insert("iss".to_string(), serde_json::Value::from(claims.iss.clone()));
    body.insert("iat".to_string(), serde_json::Value::from(claims.iat));
    body.insert("exp".to_string(), serde_json::Value::from(claims.exp));
    jsonwebtoken::encode(&header, &body, key)
}

/// The debug rendering of a JWT error.
///
/// Trusted: formats the error with `{:?}`. The error type is the tuple
/// struct `Error(Box<ErrorKind>)` with a derived `Debug`, so the text begins
/// with "Error("; nothing more is stated of it.
#[verifier::external_body]
fn jwt_error_text(e: &JwtError) -> (m: String)
    ensures
        is_error_text(m@),
{
    format!("{:?}", e)
}

impl IAMToken {
    /// The value of the "authorization" header that carries this token.
    pub fn authorization(&self) -> (v: String)
        ensures
            v@ == "Bearer "@ + self.token@,
    {
        concat2("Bearer ", self.token.as_str())
    }
}

impl IAMGenerator {
    /// A generator for the service account of `auth_info`.
    pub fn new(auth_info: AuthInfo) -> (g: Self)
        ensures
            g.auth_info == auth_info,
    {
        IAMGenerator { auth_info }
    }

    /// The claims of a JWT issued at `now` (seconds since the epoch): for the
    /// token service, by the service account, valid for 2160 seconds.
    pub fn claims(&self, now: u64) -> (c: Claims)
        requires
            now <= u64::MAX - JWT_LIFETIME_SECS,
        ensures
            c.aud@ == IAM_AUDIENCE_URL@,
            c.iss@ == self.auth_info.service_account_id@,
            c.iat == now,
            c.exp == now + JWT_LIFETIME_SECS,
    {
        Claims {
            aud: IAM_AUDIENCE_URL.to_owned(),
            iss: self.auth_info.service_account_id.clone(),
            iat: now,
            exp: now + JWT_LIFETIME_SECS,
        }
    }

    /// The JWT issued at `now`, signed with PS256 by the service account's
    /// key under its key id. Fails with `InvalidKey` exactly when the private
    /// key is not accepted as an RSA PEM key; a token starts with the signed
    /// part of these header and claims.
    pub fn signed_jwt(&self, now: u64) -> (r: Result<String, IamError>)
        requires
            now <= u64::MAX - JWT_LIFETIME_SECS,
        ensures
            r matches Err(IamError::InvalidKey(_)) <==> !rsa_pem_accepted(encode_utf8(self.auth_info.private_key@)),
            r matches Ok(t) ==> signs(
                t@,
                jwt_signing_input(
                    self.auth_info.id@,
                    IAM_AUDIENCE_URL@,
                    self.auth_info.service_account_id@,
                    now,
                    (now + JWT_LIFETIME_SECS) as u64,
                ),
            ),
            r matches Ok(t) ==> (t@.len() > 0 && t@[0] == 'e'),
            r matches Err(IamError::InvalidKey(m)) ==> is_error_text(m@),
            r matches Err(IamError::Signing(m)) ==> is_error_text(m@),
    {
        let claims = self.claims(now);
        let key = match rsa_key_from_pem(self.auth_info.private_key.as_str().as_bytes()) {
            Ok(k) => k,
            Err(e) => return Err(IamError::InvalidKey(jwt_error_text(&e))),
        };
        let encoded = encode_ps256(self.auth_info.id.as_str(), &claims, &key);
        let ghost before = encoded;
        let r = jwt_outcome(encoded);
        assert(r matches Ok(u) ==> (before matches Ok(t) && u@ == t@ && u@[0] == t@[0]));
        r
    }
}

/// The result of signing: the token jsonwebtoken produced, unchanged, or a
/// `Signing` error carrying the debug rendering of its error.
pub fn jwt_outcome(encoded: Result<String, JwtError>) -> (r: Result<String, IamError>)
    ensures
        encoded is Ok <==> r is Ok,
        encoded matches Ok(t) ==> (r matches Ok(u) && u@ == t@),
        encoded is Err ==> (r matches Err(IamError::Signing(m)) && is_error_text(m@)),
{
    match encoded {
        Ok(t) => Ok(t),
        Err(e) => Err(IamError::Signing(jwt_error_text(&e))),
    }
}

/// Law: a signing error never carries a token: error texts begin with
/// "Error(" and tokens with "e", so no text is both.
pub proof fn law_error_text_is_no_token(m: Seq<char>)
    ensures
        !(is_error_text(m) && m.len() > 0 && m[0] == 'e'),
{
    reveal_strlit("Error(");
    if is_error_text(m) {
        assert(m.take(6)[0] == m[0]);
    }
}

/// The token the service issued.
pub fn iam_token(token: String) -> (t: IAMToken)
    ensures
        t.token@ == token@,
{
    IAMToken { token }
}

} // verus!
