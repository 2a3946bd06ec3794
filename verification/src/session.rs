//! Session handlers: login, refresh and logout, with the refresh-rotation
//! protocol and the cookie lifecycle.
//!
//! Tokens are stateless: no server-side record of an issued token exists,
//! so a token cannot be revoked before its natural expiry. Logout
//! therefore only clears the client-held refresh cookie, and a previously
//! issued access token stays valid until it expires. This is a deliberate,
//! documented limitation of the design.
//!
//! The access token is only ever returned in the response body, never in a
//! cookie; the refresh token travels only in the `refresh` cookie, which
//! is http-only, `SameSite=Strict` and scoped to path `/`.

use vstd::prelude::*;
use vstd::string::*;

use crate::errors::AppError;
use crate::errors::plain_message;
use crate::hash::Argon2Hasher;
use crate::hash::password_verifies;
use crate::ids::id_to_string;
use crate::ids::uuid_text;
use crate::jwt::ClaimsWire;
use crate::jwt::JWT;
use crate::jwt::is_symmetric;
use crate::jwt::refresh_gate_accepts;
use crate::jwt::spec_type_str;
use crate::jwt::spec_verify;
use crate::jwt::token_claims;
use crate::requests::LoginUser;
use crate::responses::Token;
use crate::responses::TokenType;
use crate::store::UserStore;
use crate::store::spec_contains_login;

verus! {

/// Parameters of the `refresh` cookie as a handler decides them. The
/// cookie is always named `refresh`, http-only, `SameSite=Strict` and
/// scoped to path `/`; a negative max-age clears it.
pub struct RefreshCookie {
    pub value: String,
    pub expires_at: i64,
    pub max_age_seconds: i64,
    pub http_only: bool,
    pub same_site_strict: bool,
}

/// What a successful login or refresh hands back: the access token for
/// the response body and the refresh cookie to set.
pub struct SessionResponse {
    pub access: Token,
    pub refresh_cookie: RefreshCookie,
}

/// The wire claims of a token issued at `now` for `sub` with lifetime
/// `dur`.
pub open spec fn spec_issued_wire(typ: TokenType, sub: Seq<char>, now: u64, dur: int) -> ClaimsWire {
    ClaimsWire { typ: spec_type_str(typ), sub, iat: now as int, exp: now + dur }
}

/// A Unix timestamp clipped into the signed 64-bit range cookies use.
pub open spec fn spec_clamp_to_i64(v: int) -> i64 {
    if v > i64::MAX {
        i64::MAX
    } else if v < i64::MIN {
        i64::MIN
    } else {
        v as i64
    }
}

fn clamp_to_i64(v: u64) -> (r: i64)
    ensures
        r == spec_clamp_to_i64(v as int),
{
    if v > i64::MAX as u64 {
        i64::MAX
    } else {
        v as i64
    }
}

/// Logs an account in: look the login up, verify the password against the
/// stored digest, and on success issue a fresh Access token (for the
/// response body) and a fresh Refresh token (for the cookie, with max-age
/// equal to the refresh lifetime). Fails with NotFound for an unknown
/// login and with BadRequest for a wrong password.
pub fn login_handler(
    store: &UserStore,
    hasher: &Argon2Hasher,
    jwt: &JWT,
    login_user: LoginUser,
    now: u64,
) -> (r: Result<SessionResponse, AppError>)
    ensures
        r matches Err(e) ==> {
            ||| (e is NotFoundError && e.spec_message().message@ == "User not found"@
                && !spec_contains_login(store.records(), login_user.login@))
            ||| (e is BadRequestError && e.spec_message().message@ == "Invalid password"@
                && exists|i: int|
                0 <= i < store.records().len() && #[trigger] store.records()[i].login@
                    == login_user.login@ && !password_verifies(
                    store.records()[i].password@,
                    login_user.password@,
                ))
            ||| e is ServiceNotImplementedError
        },
        !spec_contains_login(store.records(), login_user.login@) ==> (r matches Err(e)
            && e is NotFoundError && e.spec_message().message@ == "User not found"@),
        (store.wf() && store.index_tied() && (exists|i: int|
            0 <= i < store.records().len() && #[trigger] store.records()[i].login@
                == login_user.login@ && !password_verifies(
                store.records()[i].password@,
                login_user.password@,
            ))) ==> (r matches Err(e) && e is BadRequestError && e.spec_message().message@
            == "Invalid password"@),
        (store.wf() && store.index_tied() && is_symmetric(jwt.alg_name_view())
            && jwt.access_expire() > 0 && jwt.refresh_expire() > 0 && now + jwt.access_expire()
            <= u64::MAX && now + jwt.refresh_expire() <= u64::MAX && (exists|i: int|
            0 <= i < store.records().len() && #[trigger] store.records()[i].login@
                == login_user.login@ && password_verifies(
                store.records()[i].password@,
                login_user.password@,
            ))) ==> r is Ok,
        r matches Ok(resp) ==> {
            &&& resp.access.typ == TokenType::ACCESS
            &&& resp.refresh_cookie.http_only
            &&& resp.refresh_cookie.same_site_strict
            &&& jwt.access_expire() > 0
            &&& jwt.refresh_expire() > 0
            &&& resp.refresh_cookie.max_age_seconds == jwt.refresh_expire()
            &&& resp.refresh_cookie.expires_at == spec_clamp_to_i64(
                now + jwt.refresh_expire(),
            )
            &&& exists|i: int|
                {
                    &&& 0 <= i < store.records().len()
                    &&& #[trigger] store.records()[i].login@ == login_user.login@
                    &&& password_verifies(store.records()[i].password@, login_user.password@)
                    &&& (jwt.keys_round_trip() ==> token_claims(
                        resp.access.token@,
                        jwt.alg_name_view(),
                        jwt.verify_key_view(),
                    ) == Some(
                        spec_issued_wire(
                            TokenType::ACCESS,
                            uuid_text(store.records()[i].id),
                            now,
                            jwt.access_expire() as int,
                        ),
                    ))
                    &&& (jwt.keys_round_trip() ==> token_claims(
                        resp.refresh_cookie.value@,
                        jwt.alg_name_view(),
                        jwt.verify_key_view(),
                    ) == Some(
                        spec_issued_wire(
                            TokenType::REFRESH,
                            uuid_text(store.records()[i].id),
                            now,
                            jwt.refresh_expire() as int,
                        ),
                    ))
                }
        },
{
    let user = match store.get_by_login(&login_user.login) {
        Some(u) => u,
        None => {
            return Err(AppError::NotFoundError(plain_message("User not found")));
        },
    };
    let ghost witness: int = choose|i: int|
        0 <= i < store.records().len() && store.records()[i] == user;
    let password_ok = hasher.verify_password(user.password.as_str(), login_user.password.as_str());
    proof {
        assert(store.records()[witness].login@ == login_user.login@);
        if store.wf() && store.index_tied() {
            assert forall|i: int|
                0 <= i < store.records().len() && #[trigger] store.records()[i].login@
                    == login_user.login@ implies i == witness by {
                if i < witness {
                    crate::store::lemma_logins_distinct(*store, i, witness);
                } else if i > witness {
                    crate::store::lemma_logins_distinct(*store, witness, i);
                }
            }
        }
    }
    if !password_ok {
        return Err(AppError::BadRequestError(plain_message("Invalid password")));
    }
    let sub = id_to_string(user.id);
    let access = match jwt.create_token(sub.clone(), TokenType::ACCESS, None, now) {
        Ok((_exp, token)) => token,
        Err(e) => return Err(e),
    };
    let pair = match jwt.create_token(sub, TokenType::REFRESH, None, now) {
        Ok(p) => p,
        Err(e) => return Err(e),
    };
    let exp = pair.0;
    let refresh = pair.1;
    let max_age = (exp - now) as i64;
    let cookie = RefreshCookie {
        value: refresh.token,
        expires_at: clamp_to_i64(exp),
        max_age_seconds: max_age,
        http_only: true,
        same_site_strict: true,
    };
    proof {
        assert(store.records()[witness].login@ == login_user.login@);
    }
    Ok(SessionResponse { access, refresh_cookie: cookie })
}

/// Rotates a session: the `refresh` cookie is verified (Unauthorized if
/// missing, invalid, expired, or not a Refresh token — an Access token can
/// never be replayed here), and a full new Access/Refresh pair is issued
/// for the same subject. The superseded refresh token is not server-side
/// invalidated: tokens are stateless.
pub fn refresh_handler(jwt: &JWT, refresh_cookie: Option<String>, now: u64) -> (r: Result<
    SessionResponse,
    AppError,
>)
    ensures
        refresh_cookie is None ==> (r matches Err(e) && e is UnAuthorizedError
            && e.spec_message().message@ == "Token is not provided"@),
        r matches Err(e) ==> e is UnAuthorizedError || e is ServiceNotImplementedError,
        refresh_cookie matches Some(t) && !refresh_gate_accepts(
            token_claims(t@, jwt.alg_name_view(), jwt.verify_key_view()),
            now,
        ) ==> r is Err,
        refresh_cookie matches Some(t) ==> ({
            let w = token_claims(t@, jwt.alg_name_view(), jwt.verify_key_view());
            &&& (spec_verify(w, now) is None ==> (r matches Err(e) && e is UnAuthorizedError
                && e.spec_message().message@ == "Invalid token provided"@))
            &&& ((spec_verify(w, now) matches Some(c) && c.typ != TokenType::REFRESH) ==> (
            r matches Err(e) && e is UnAuthorizedError && e.spec_message().message@
                == "Invalid token"@))
        }),
        (refresh_cookie matches Some(t) && refresh_gate_accepts(
            token_claims(t@, jwt.alg_name_view(), jwt.verify_key_view()),
            now,
        ) && is_symmetric(jwt.alg_name_view()) && jwt.access_expire() > 0 && jwt.refresh_expire()
            > 0 && now + jwt.access_expire() <= u64::MAX && now + jwt.refresh_expire()
            <= u64::MAX) ==> r is Ok,
        r matches Ok(resp) ==> (refresh_cookie matches Some(t) && {
            let w = token_claims(t@, jwt.alg_name_view(), jwt.verify_key_view());
            let c = spec_verify(w, now).unwrap();
            &&& refresh_gate_accepts(w, now)
            &&& resp.access.typ == TokenType::ACCESS
            &&& resp.refresh_cookie.http_only
            &&& resp.refresh_cookie.same_site_strict
            &&& jwt.access_expire() > 0
            &&& jwt.refresh_expire() > 0
            &&& resp.refresh_cookie.max_age_seconds == jwt.refresh_expire()
            &&& resp.refresh_cookie.expires_at == spec_clamp_to_i64(
                now + jwt.refresh_expire(),
            )
            &&& (jwt.keys_round_trip() ==> token_claims(
                resp.access.token@,
                jwt.alg_name_view(),
                jwt.verify_key_view(),
            ) == Some(spec_issued_wire(TokenType::ACCESS, c.sub, now, jwt.access_expire() as int)))
            &&& (jwt.keys_round_trip() ==> token_claims(
                resp.refresh_cookie.value@,
                jwt.alg_name_view(),
                jwt.verify_key_view(),
            ) == Some(
                spec_issued_wire(TokenType::REFRESH, c.sub, now, jwt.refresh_expire() as int),
            ))
        }),
{
    let token = match refresh_cookie {
        Some(t) => t,
        None => {
            return Err(AppError::UnAuthorizedError(plain_message("Token is not provided")));
        },
    };
    let claims = match jwt.verify_token(token, now) {
        Ok(c) => c,
        Err(e) => return Err(e),
    };
    if claims._type != TokenType::REFRESH {
        return Err(AppError::UnAuthorizedError(plain_message("Invalid token")));
    }
    let access = match jwt.create_token(claims.sub.clone(), TokenType::ACCESS, None, now) {
        Ok((_exp, token)) => token,
        Err(e) => return Err(e),
    };
    let pair = match jwt.create_token(claims.sub, TokenType::REFRESH, None, now) {
        Ok(p) => p,
        Err(e) => return Err(e),
    };
    let exp = pair.0;
    let refresh = pair.1;
    let max_age = (exp - now) as i64;
    let cookie = RefreshCookie {
        value: refresh.token,
        expires_at: clamp_to_i64(exp),
        max_age_seconds: max_age,
        http_only: true,
        same_site_strict: true,
    };
    Ok(SessionResponse { access, refresh_cookie: cookie })
}

/// Logs out by clearing the refresh cookie: empty value, expiry in the
/// past, negative max-age. Needs no valid token to succeed and does not
/// invalidate any currently valid access token.
pub fn logout_handler() -> (r: (crate::responses::Status, RefreshCookie))
    ensures
        r.0.status == true,
        r.1.value@ == Seq::<char>::empty(),
        r.1.expires_at == -1,
        r.1.max_age_seconds == -3600,
        r.1.http_only,
        r.1.same_site_strict,
{
    let cookie = RefreshCookie {
        value: String::new(),
        expires_at: -1,
        max_age_seconds: -3600,
        http_only: true,
        same_site_strict: true,
    };
    (crate::responses::Status { status: true }, cookie)
}

} // verus!
