//! Token service: stateless creation and verification of signed claims.
//!
//! The service holds only key material, never a storage handle. The
//! algorithm family is chosen once at construction and pinned for the
//! service's lifetime: verification only ever accepts that one algorithm,
//! so no per-call negotiation (and no algorithm-confusion) is possible.
//!
//! The cryptography is the jsonwebtoken crate, used as a black box behind
//! trusted wrappers. What a signed token certifies is named by
//! [`token_claims`]: the claims that decoding the token under this
//! service's algorithm and verification key yields, if any. Everything
//! around the two crypto calls — kind tagging, expiry arithmetic and
//! checking, the issue/verify protocol — is verified.

use vstd::prelude::*;
use vstd::string::*;
use base64::Engine;
use core::str::FromStr;

use crate::errors::AppError;
use crate::errors::plain_message;
use crate::responses::Token;
use crate::responses::TokenClaims;
use crate::responses::TokenType;

verus! {

/// Ghost view of the wire-level claims object inside a token: the kind tag
/// as its wire string, the subject, and the two timestamps.
pub ghost struct ClaimsWire {
    pub typ: Seq<char>,
    pub sub: Seq<char>,
    pub iat: int,
    pub exp: int,
}

/// Ghost view of verified claims, with the kind tag decoded.
pub ghost struct ClaimsView {
    pub typ: TokenType,
    pub sub: Seq<char>,
    pub iat: int,
    pub exp: int,
}

impl View for TokenClaims {
    type V = ClaimsView;

    open spec fn view(&self) -> ClaimsView {
        ClaimsView {
            typ: self._type,
            sub: self.sub@,
            iat: self.iat as int,
            exp: self.exp as int,
        }
    }
}

/// Exec form of the wire-level claims object.
pub struct WireClaims {
    pub typ: String,
    pub sub: String,
    pub iat: u64,
    pub exp: u64,
}

impl View for WireClaims {
    type V = ClaimsWire;

    open spec fn view(&self) -> ClaimsWire {
        ClaimsWire {
            typ: self.typ@,
            sub: self.sub@,
            iat: self.iat as int,
            exp: self.exp as int,
        }
    }
}

/// The claims that decoding `token` under algorithm `alg` (named as the
/// configuration string) and the base64 verification key `verify_key_b64`
/// yields: `Some` exactly when the token is well formed, signed under that
/// key, tagged with that algorithm, and carries a claims object of the
/// wire shape. A function of its three arguments alone.
pub uninterp spec fn token_claims(
    token: Seq<char>,
    alg: Seq<char>,
    verify_key_b64: Seq<char>,
) -> Option<ClaimsWire>;

/// The bytes that base64 (standard alphabet) decodes out of `s`, if any.
pub uninterp spec fn b64_decoded(s: Seq<char>) -> Option<Seq<u8>>;

/// The twelve algorithm names the token layer accepts.
pub open spec fn known_algorithm(s: Seq<char>) -> bool {
    ||| s == "HS256"@
    ||| s == "HS384"@
    ||| s == "HS512"@
    ||| s == "ES256"@
    ||| s == "ES384"@
    ||| s == "RS256"@
    ||| s == "RS384"@
    ||| s == "RS512"@
    ||| s == "PS256"@
    ||| s == "PS384"@
    ||| s == "PS512"@
    ||| s == "EdDSA"@
}

/// The shared-secret (HMAC) algorithm names.
pub open spec fn is_symmetric(s: Seq<char>) -> bool {
    ||| s == "HS256"@
    ||| s == "HS384"@
    ||| s == "HS512"@
}

/// The wire string of a token kind.
pub open spec fn spec_type_str(t: TokenType) -> Seq<char> {
    match t {
        TokenType::ACCESS => "ACCESS"@,
        TokenType::REFRESH => "REFRESH"@,
    }
}

/// The token kind a wire string decodes to, if any.
pub open spec fn spec_type_of_str(s: Seq<char>) -> Option<TokenType> {
    if s == spec_type_str(TokenType::ACCESS) {
        Some(TokenType::ACCESS)
    } else if s == spec_type_str(TokenType::REFRESH) {
        Some(TokenType::REFRESH)
    } else {
        None
    }
}

/// The two wire strings are distinct, so encoding a kind and decoding it
/// back is the identity.
pub proof fn lemma_wire_type_round_trip(t: TokenType)
    ensures
        spec_type_of_str(spec_type_str(t)) == Some(t),
{
    reveal_strlit("ACCESS");
    reveal_strlit("REFRESH");
    assert("ACCESS"@.len() == 6);
    assert("REFRESH"@.len() == 7);
}

fn type_to_wire(t: TokenType) -> (r: String)
    ensures
        r@ == spec_type_str(t),
{
    match t {
        TokenType::ACCESS => "ACCESS".to_owned(),
        TokenType::REFRESH => "REFRESH".to_owned(),
    }
}

fn type_from_wire(s: &String) -> (r: Option<TokenType>)
    ensures
        r == spec_type_of_str(s@),
{
    let access = "ACCESS".to_owned();
    let refresh = "REFRESH".to_owned();
    if *s == access {
        Some(TokenType::ACCESS)
    } else if *s == refresh {
        Some(TokenType::REFRESH)
    } else {
        None
    }
}

#[verifier::external_type_specification]
#[verifier::external_body]
pub struct ExAlgorithm(jsonwebtoken::Algorithm);

#[verifier::external_type_specification]
#[verifier::external_body]
pub struct ExEncodingKey(jsonwebtoken::EncodingKey);

#[verifier::external_type_specification]
#[verifier::external_body]
pub struct ExDecodingKey(jsonwebtoken::DecodingKey);

/// Relies on jsonwebtoken's `Algorithm::from_str`: exactly the twelve
/// documented algorithm names parse, and the returned flag is whether the
/// parsed algorithm is of the HMAC (shared-secret) family — exactly the
/// `HS*` names.
#[verifier::external_body]
fn parse_algorithm(s: &str) -> (r: Result<(jsonwebtoken::Algorithm, bool), ()>)
    ensures
        r is Ok <==> known_algorithm(s@),
        r matches Ok((a, symmetric)) ==> symmetric == is_symmetric(s@),
{
    match jsonwebtoken::Algorithm::from_str(s) {
        Ok(a) => Ok((a, a.family() == jsonwebtoken::AlgorithmFamily::Hmac)),
        Err(_) => Err(()),
    }
}

/// Relies on base64's standard-alphabet decode: the outcome is a function
/// of the characters alone.
#[verifier::external_body]
fn b64_decode(s: &str) -> (r: Result<Vec<u8>, ()>)
    ensures
        r matches Ok(b) ==> b64_decoded(s@) == Some(b@),
        r is Err ==> b64_decoded(s@) is None,
{
    match base64::prelude::BASE64_STANDARD.decode(s.as_bytes()) {
        Ok(b) => Ok(b),
        Err(_) => Err(()),
    }
}

/// Relies on jsonwebtoken's `EncodingKey::from_secret` and
/// `DecodingKey::from_secret`: an HMAC key is the raw bytes, and building
/// one cannot fail.
#[verifier::external_body]
fn build_hmac_keys(secret: &Vec<u8>, public: &Vec<u8>) -> (r: (
    jsonwebtoken::EncodingKey,
    jsonwebtoken::DecodingKey,
)) {
    (
        jsonwebtoken::EncodingKey::from_secret(secret),
        jsonwebtoken::DecodingKey::from_secret(public),
    )
}

/// Relies on jsonwebtoken's PEM key constructors, one per asymmetric
/// family as the crate requires them: EdDSA keys from Ed PEM, all
/// remaining algorithms from RSA PEM.
#[verifier::external_body]
fn build_pem_keys(alg: &jsonwebtoken::Algorithm, secret: &Vec<u8>, public: &Vec<u8>) -> (r:
    Result<(jsonwebtoken::EncodingKey, jsonwebtoken::DecodingKey), ()>) {
    match alg.family() {
        jsonwebtoken::AlgorithmFamily::Ed => match (jsonwebtoken::EncodingKey::from_ed_pem(secret), jsonwebtoken::DecodingKey::from_ed_pem(public)) {
            (Ok(e), Ok(d)) => Ok((e, d)),
            _ => Err(()),
        },
        _ => match (jsonwebtoken::EncodingKey::from_rsa_pem(secret), jsonwebtoken::DecodingKey::from_rsa_pem(public)) {
            (Ok(e), Ok(d)) => Ok((e, d)),
            _ => Err(()),
        },
    }
}

/// The token service: pinned algorithm, key pair, and the two default
/// token lifetimes. Construction is the only way to build one, so the
/// opaque keys always correspond to the recorded configuration strings.
pub struct JWT {
    alg: jsonwebtoken::Algorithm,
    alg_name: String,
    secret_b64: String,
    public_b64: String,
    enc_key: jsonwebtoken::EncodingKey,
    dec_key: jsonwebtoken::DecodingKey,
    access_token_expire_seconds: i64,
    refresh_token_expire_seconds: i64,
}

/// Relies on jsonwebtoken's `encode`, handing it the claims object under
/// the wire field names; and on `decode` being its inverse: when the
/// algorithm is symmetric and the verification key equals the signing key,
/// the returned token carries exactly these claims. For a symmetric
/// configuration the call also cannot fail: the key is an HMAC key of the
/// matching family (construction guarantees it), HMAC accepts any key
/// length, signing is infallible, and serializing the wire object cannot
/// fail.
#[verifier::external_body]
fn jwt_encode(jwt: &JWT, claims: &WireClaims) -> (r: Result<String, ()>)
    ensures
        r matches Ok(t) ==> (jwt.keys_round_trip() ==> token_claims(
            t@,
            jwt.alg_name_view(),
            jwt.verify_key_view(),
        ) == Some(claims@)),
        is_symmetric(jwt.alg_name_view()) ==> r is Ok,
{
    let mut m = serde_json::Map::new();
    m.insert("_type".to_string(), serde_json::Value::String(claims.typ.clone()));
    m.insert("sub".to_string(), serde_json::Value::String(claims.sub.clone()));
    m.insert("iat".to_string(), serde_json::Value::from(claims.iat));
    m.insert("exp".to_string(), serde_json::Value::from(claims.exp));
    let header = jsonwebtoken::Header::new(jwt.alg);
    match jsonwebtoken::encode(&header, &serde_json::Value::Object(m), &jwt.enc_key) {
        Ok(t) => Ok(t),
        Err(_) => Err(()),
    }
}

/// Relies on jsonwebtoken's `decode` with a pinned validation: only the
/// configured algorithm is accepted, expiry is left to the verified
/// caller. The outcome is the function of token, algorithm and
/// verification key that [`token_claims`] names.
#[verifier::external_body]
fn jwt_decode(jwt: &JWT, token: &str) -> (r: Result<WireClaims, ()>)
    ensures
        r matches Ok(c) ==> token_claims(token@, jwt.alg_name_view(), jwt.verify_key_view())
            == Some(c@),
        r is Err ==> token_claims(token@, jwt.alg_name_view(), jwt.verify_key_view()) is None,
{
    let mut v = jsonwebtoken::Validation::new(jwt.alg);
    v.validate_exp = false;
    v.validate_aud = false;
    v.required_spec_claims = std::collections::HashSet::new();
    let data = jsonwebtoken::decode::<serde_json::Value>(token, &jwt.dec_key, &v).map_err(|_| ())?;
    let c = data.claims;
    let typ = c["_type"].as_str().ok_or(())?.to_string();
    let sub = c["sub"].as_str().ok_or(())?.to_string();
    let iat = c["iat"].as_u64().ok_or(())?;
    let exp = c["exp"].as_u64().ok_or(())?;
    Ok(WireClaims { typ, sub, iat, exp })
}

/// What verification at time `now` makes of a decoded wire object: `None`
/// for an unverifiable token, an unknown kind tag, or an expired token;
/// otherwise the claims with the kind decoded.
pub open spec fn spec_verify(w: Option<ClaimsWire>, now: u64) -> Option<ClaimsView> {
    match w {
        None => None,
        Some(cw) => match spec_type_of_str(cw.typ) {
            None => None,
            Some(t) => if cw.exp > now {
                Some(ClaimsView { typ: t, sub: cw.sub, iat: cw.iat, exp: cw.exp })
            } else {
                None
            },
        },
    }
}

/// Whether a presented token passes a gate expecting an Access token.
pub open spec fn access_gate_accepts(w: Option<ClaimsWire>, now: u64) -> bool {
    spec_verify(w, now) matches Some(c) && c.typ == TokenType::ACCESS
}

/// Whether a presented token passes a gate expecting a Refresh token.
pub open spec fn refresh_gate_accepts(w: Option<ClaimsWire>, now: u64) -> bool {
    spec_verify(w, now) matches Some(c) && c.typ == TokenType::REFRESH
}

/// One presented token can never pass both the access gate and the refresh
/// gate: verified claims carry a single kind.
pub proof fn lemma_token_kinds_exclusive(w: Option<ClaimsWire>, now: u64)
    ensures
        !(access_gate_accepts(w, now) && refresh_gate_accepts(w, now)),
{
}

/// Verifying right after issuing: a token whose claims are exactly those
/// issued for `sub` with kind `typ`, not yet expired, verifies to claims
/// with the same subject and the same kind.
pub proof fn lemma_issue_then_verify(
    w: Option<ClaimsWire>,
    typ: TokenType,
    sub: Seq<char>,
    iat: int,
    exp: int,
    now: u64,
)
    ensures
        w == Some(ClaimsWire { typ: spec_type_str(typ), sub, iat, exp }) && exp > now
            ==> spec_verify(w, now) == Some(ClaimsView { typ, sub, iat, exp }),
{
    lemma_wire_type_round_trip(typ);
}

impl JWT {
    /// The configured algorithm name.
    pub closed spec fn alg_name_view(&self) -> Seq<char> {
        self.alg_name@
    }

    /// The base64 signing key string the service was built with.
    pub closed spec fn signing_key_view(&self) -> Seq<char> {
        self.secret_b64@
    }

    /// The base64 verification key string the service was built with.
    pub closed spec fn verify_key_view(&self) -> Seq<char> {
        self.public_b64@
    }

    /// Default Access token lifetime in seconds.
    pub closed spec fn access_expire(&self) -> i64 {
        self.access_token_expire_seconds
    }

    /// Default Refresh token lifetime in seconds.
    pub closed spec fn refresh_expire(&self) -> i64 {
        self.refresh_token_expire_seconds
    }

    /// The configurations under which issued tokens are known to verify
    /// again: a shared-secret algorithm with one key on both sides. (For an
    /// asymmetric pair no contract ties the two keys to each other.)
    pub open spec fn keys_round_trip(&self) -> bool {
        is_symmetric(self.alg_name_view()) && self.signing_key_view() == self.verify_key_view()
    }

    /// The default lifetime used for a token of kind `typ` when the caller
    /// supplies no override.
    pub open spec fn spec_duration(&self, typ: TokenType, expire: Option<i64>) -> int {
        match expire {
            Some(d) => d as int,
            None => match typ {
                TokenType::ACCESS => self.access_expire() as int,
                TokenType::REFRESH => self.refresh_expire() as int,
            },
        }
    }

    /// Builds the service from its configuration: algorithm name, base64
    /// signing and verification keys, and the two default lifetimes. The
    /// algorithm must be one of the known names and both keys must be
    /// valid base64 (and, for the asymmetric families, valid PEM).
    pub fn new(
        algorithm: String,
        secret_key: String,
        public_key: String,
        access_token_expire_seconds: i64,
        refresh_token_expire_seconds: i64,
    ) -> (r: Result<JWT, AppError>)
        ensures
            r matches Ok(j) ==> j.alg_name_view() == algorithm@ && j.signing_key_view()
                == secret_key@ && j.verify_key_view() == public_key@ && j.access_expire()
                == access_token_expire_seconds && j.refresh_expire()
                == refresh_token_expire_seconds,
            !known_algorithm(algorithm@) ==> r is Err,
            b64_decoded(secret_key@) is None ==> r is Err,
            b64_decoded(public_key@) is None ==> r is Err,
            r matches Err(e) ==> e is InternalServerError,
            (is_symmetric(algorithm@) && b64_decoded(secret_key@) is Some && b64_decoded(
                public_key@,
            ) is Some) ==> r is Ok,
    {
        let parsed = match parse_algorithm(algorithm.as_str()) {
            Ok(p) => p,
            Err(_) => return Err(
                AppError::InternalServerError(plain_message("Unknown token algorithm")),
            ),
        };
        let alg = parsed.0;
        let symmetric = parsed.1;
        let secret_bytes = match b64_decode(secret_key.as_str()) {
            Ok(b) => b,
            Err(_) => return Err(
                AppError::InternalServerError(plain_message("Secret key is not valid base64")),
            ),
        };
        let public_bytes = match b64_decode(public_key.as_str()) {
            Ok(b) => b,
            Err(_) => return Err(
                AppError::InternalServerError(plain_message("Public key is not valid base64")),
            ),
        };
        let keys = if symmetric {
            build_hmac_keys(&secret_bytes, &public_bytes)
        } else {
            match build_pem_keys(&alg, &secret_bytes, &public_bytes) {
                Ok(k) => k,
                Err(_) => return Err(
                    AppError::InternalServerError(plain_message("Keys could not be built")),
                ),
            }
        };
        Ok(
            JWT {
                alg,
                alg_name: algorithm,
                secret_b64: secret_key,
                public_b64: public_key,
                enc_key: keys.0,
                dec_key: keys.1,
                access_token_expire_seconds,
                refresh_token_expire_seconds,
            },
        )
    }

    /// Issues a signed token of kind `typ` for subject `sub` at time `now`:
    /// `issued_at = now`, `expires_at = now + duration`, where the duration
    /// is the caller's override or the configured default for the kind.
    /// A non-positive duration (or one pushing the expiry out of range) is
    /// a configuration error, rejected before signing.
    pub fn create_token(&self, sub: String, typ: TokenType, expire: Option<i64>, now: u64) -> (r:
        Result<(u64, Token), AppError>)
        ensures
            self.spec_duration(typ, expire) <= 0 ==> r is Err,
            r matches Err(e) ==> e is ServiceNotImplementedError,
            (is_symmetric(self.alg_name_view()) && self.spec_duration(typ, expire) > 0 && now
                + self.spec_duration(typ, expire) <= u64::MAX) ==> r is Ok,
            r matches Ok((exp, tok)) ==> {
                &&& self.spec_duration(typ, expire) > 0
                &&& exp == now + self.spec_duration(typ, expire)
                &&& tok.typ == typ
                &&& (self.keys_round_trip() ==> token_claims(
                    tok.token@,
                    self.alg_name_view(),
                    self.verify_key_view(),
                ) == Some(
                    ClaimsWire {
                        typ: spec_type_str(typ),
                        sub: sub@,
                        iat: now as int,
                        exp: now + self.spec_duration(typ, expire),
                    },
                ))
            },
    {
        let duration: i64 = match expire {
            Some(d) => d,
            None => match typ {
                TokenType::ACCESS => self.access_token_expire_seconds,
                TokenType::REFRESH => self.refresh_token_expire_seconds,
            },
        };
        let exp_wide: i128 = now as i128 + duration as i128;
        if exp_wide <= now as i128 || exp_wide > u64::MAX as i128 {
            return Err(
                AppError::ServiceNotImplementedError(
                    plain_message("Invalid expiration delta was provided"),
                ),
            );
        }
        let exp: u64 = exp_wide as u64;
        let wire = WireClaims { typ: type_to_wire(typ), sub, iat: now, exp };
        match jwt_encode(self, &wire) {
            Ok(t) => Ok((exp, Token { typ, token: t })),
            Err(_) => Err(
                AppError::ServiceNotImplementedError(plain_message("Failed to create a token")),
            ),
        }
    }

    /// Verifies a presented token at time `now`: signature and algorithm
    /// via the pinned configuration, then kind tag and expiry. Fails with
    /// Unauthorized on any of malformed token, signature mismatch, unknown
    /// kind, or expiry violation — the causes are not distinguished to the
    /// caller.
    pub fn verify_token(&self, token: String, now: u64) -> (r: Result<TokenClaims, AppError>)
        ensures
            r matches Ok(c) ==> spec_verify(
                token_claims(token@, self.alg_name_view(), self.verify_key_view()),
                now,
            ) == Some(c@),
            r matches Err(e) ==> spec_verify(
                token_claims(token@, self.alg_name_view(), self.verify_key_view()),
                now,
            ) is None && e is UnAuthorizedError && e.spec_message().message@
                == "Invalid token provided"@,
    {
        let wire = match jwt_decode(self, token.as_str()) {
            Ok(w) => w,
            Err(_) => return Err(
                AppError::UnAuthorizedError(plain_message("Invalid token provided")),
            ),
        };
        let typ = match type_from_wire(&wire.typ) {
            Some(t) => t,
            None => return Err(
                AppError::UnAuthorizedError(plain_message("Invalid token provided")),
            ),
        };
        if wire.exp <= now {
            return Err(AppError::UnAuthorizedError(plain_message("Invalid token provided")));
        }
        Ok(TokenClaims { _type: typ, sub: wire.sub, iat: wire.iat, exp: wire.exp })
    }
}

} // verus!
