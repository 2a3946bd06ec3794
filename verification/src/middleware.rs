//! Request-authentication gate.
//!
//! Per request: extract a credential (the `token` cookie, else a
//! `Authorization: Bearer` header), verify it as an Access token, parse
//! the claim subject as an account identifier, and load the account. Any
//! failure short-circuits to Unauthorized, a missing account included:
//! callers cannot probe which identifiers are in use.

use vstd::prelude::*;
use vstd::string::*;

use crate::errors::AppError;
use crate::errors::plain_message;
use crate::ids::id_from_string;
use crate::ids::uuid_parsed;
use crate::jwt::JWT;
use crate::jwt::access_gate_accepts;
use crate::jwt::spec_verify;
use crate::jwt::token_claims;
use crate::responses::TokenType;
use crate::responses::User;
use crate::service::UserService;
use crate::service::spec_public;
use crate::store::UserStore;
use crate::store::spec_contains_id;

verus! {

/// The token carried by a `Bearer` authorization header, if the header
/// has that shape.
pub open spec fn spec_bearer(h: Seq<char>) -> Option<Seq<char>> {
    if h.len() >= 7 && h.subrange(0, 7) == "Bearer "@ {
        Some(h.subrange(7, h.len() as int))
    } else {
        None
    }
}

/// The credential a request presents: the `token` cookie wins, else the
/// bearer header, else nothing.
pub open spec fn spec_presented(cookie: Option<String>, header: Option<String>) -> Option<
    Seq<char>,
> {
    match cookie {
        Some(c) => Some(c@),
        None => match header {
            Some(h) => spec_bearer(h@),
            None => None,
        },
    }
}

fn bearer_token(h: &String) -> (r: Option<String>)
    ensures
        r matches Some(t) ==> spec_bearer(h@) == Some(t@),
        r is None ==> spec_bearer(h@) is None,
{
    let s = h.as_str();
    let n = s.unicode_len();
    if n < 7 {
        return None;
    }
    let prefix = s.substring_char(0, 7).to_owned();
    let expected = "Bearer ".to_owned();
    if prefix == expected {
        Some(s.substring_char(7, n).to_owned())
    } else {
        None
    }
}

/// The authentication gate. Returns the authenticated account for the
/// request to carry, or Unauthorized. Only a valid, unexpired Access
/// token passes: a Refresh token presented here is always rejected.
pub fn auth(
    store: &UserStore,
    jwt: &JWT,
    cookie_token: Option<String>,
    authorization_header: Option<String>,
    now: u64,
) -> (r: Result<User, AppError>)
    ensures
        spec_presented(cookie_token, authorization_header) is None ==> (r matches Err(e)
            && e.spec_message().message@ == "Token is not provided"@),
        r matches Err(e) ==> e is UnAuthorizedError,
        spec_presented(cookie_token, authorization_header) matches Some(t)
            && !access_gate_accepts(
            token_claims(t, jwt.alg_name_view(), jwt.verify_key_view()),
            now,
        ) ==> r is Err,
        (spec_presented(cookie_token, authorization_header) matches Some(t) && ({
            let w = token_claims(t, jwt.alg_name_view(), jwt.verify_key_view());
            &&& access_gate_accepts(w, now)
            &&& (uuid_parsed(spec_verify(w, now).unwrap().sub) matches Some(id)
                && spec_contains_id(store.records(), id))
        })) ==> r is Ok,
        r matches Ok(u) ==> (spec_presented(cookie_token, authorization_header) matches Some(t)
            && {
            let w = token_claims(t, jwt.alg_name_view(), jwt.verify_key_view());
            let c = spec_verify(w, now).unwrap();
            &&& access_gate_accepts(w, now)
            &&& uuid_parsed(c.sub) == Some(u.id)
            &&& exists|i: int|
                0 <= i < store.records().len() && #[trigger] store.records()[i].id == u.id && u
                    == spec_public(store.records()[i])
        }),
{
    let token: String = match cookie_token {
        Some(t) => t,
        None => match &authorization_header {
            Some(h) => match bearer_token(h) {
                Some(t) => t,
                None => {
                    return Err(
                        AppError::UnAuthorizedError(plain_message("Token is not provided")),
                    );
                },
            },
            None => {
                return Err(AppError::UnAuthorizedError(plain_message("Token is not provided")));
            },
        },
    };
    let claims = match jwt.verify_token(token, now) {
        Ok(c) => c,
        Err(e) => return Err(e),
    };
    if claims._type != TokenType::ACCESS {
        return Err(AppError::UnAuthorizedError(plain_message("Invalid token")));
    }
    let user_id = match id_from_string(claims.sub.as_str()) {
        Some(id) => id,
        None => {
            return Err(AppError::UnAuthorizedError(plain_message("Invalid token")));
        },
    };
    match UserService::new().get(store, user_id) {
        Ok(user) => Ok(user),
        Err(_) => Err(AppError::UnAuthorizedError(plain_message("Unauthorized"))),
    }
}

} // verus!
