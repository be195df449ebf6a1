use vstd::prelude::*;
use vstd::string::*;
use crate::status::Status;
use crate::text::{chars_of, opt_text, spells};

verus! {

/// A caller whose token was accepted: who they are and whether they
/// administer the service.
#[derive(Clone, Copy, Debug, PartialEq, Eq, Structural)]
pub struct AuthUser {
    pub user_id: i32,
    pub is_admin: bool,
}

/// Why a request was not let through, with the status to answer it with.
#[derive(Debug)]
pub struct AuthError {
    pub status: Status,
    pub message: String,
}

/// `jsonwebtoken::errors::Error`, carried through as an opaque value.
#[verifier::external_type_specification]
#[verifier::external_body]
pub struct ExTokenError(jsonwebtoken::errors::Error);

/// The integer that the payload of `token` holds under the name `claim`:
/// what `serde_json::Value::as_i64` reads of that member of the JSON that
/// the token's middle part encodes, and `None` where there is no such
/// member or it is no such integer. It is a matter of the token's text
/// alone, not of its signature or of the time.
pub uninterp spec fn payload_integer(token: Seq<char>, claim: Seq<char>) -> Option<i64>;

/// Whether `token` carries a valid HS256 signature under `secret`: its
/// header names HS256, and `jsonwebtoken::crypto::verify` finds that the
/// token's last part is the HMAC of the two parts before it under the key
/// made of `secret`. It is a matter of the token and the secret alone, not
/// of the time.
pub uninterp spec fn hs256_signed(token: Seq<char>, secret: Seq<u8>) -> bool;

/// Calls `jsonwebtoken::decode` with an HMAC key made of `secret` and the
/// default validation for HS256, which checks the signature and that the
/// token has not expired, and reads one member of the accepted claims with
/// `serde_json::Value::get` and `as_i64`. Trusted: a token is accepted only
/// if it is signed under `secret`, and the claims of an accepted token are
/// its payload, so what is read of them is what `payload_integer` names.
/// That a signed token is accepted is not claimed: that depends on the time
/// of the call.
#[verifier::external_body]
fn decode_hs256_claim(token: &str, secret: &[u8], claim: &str) -> (r: Result<
    Option<i64>,
    jsonwebtoken::errors::Error,
>)
    ensures
        r is Ok ==> hs256_signed(token@, secret@),
        r matches Ok(value) ==> value == payload_integer(token@, claim@),
{
    let key = jsonwebtoken::DecodingKey::from_secret(secret);
    let validation = jsonwebtoken::Validation::new(jsonwebtoken::Algorithm::HS256);
    jsonwebtoken::decode::<serde_json::Value>(token, &key, &validation).map(
        |data| data.claims.get(claim).and_then(|member| member.as_i64()),
    )
}

/// The user that the payload of `token` names: its `sub` claim, where that
/// is an integer that fits a user id.
pub open spec fn token_user(token: Seq<char>) -> Option<i32> {
    subject_of(payload_integer(token, "sub"@))
}

/// The user that a request may be made as: the one that its bearer token
/// names, where the request presents such a token and the token is signed
/// under `secret`. A request for which this is `None` is never let through.
pub open spec fn admissible_user(authorization: Option<Seq<char>>, secret: Seq<u8>) -> Option<
    i32,
> {
    match bearer_of(authorization) {
        Some(token) => if hs256_signed(token, secret) {
            token_user(token)
        } else {
            None
        },
        None => None,
    }
}

/// The token that an `Authorization` header presents: what follows the
/// prefix `Bearer `. A request without the header, or with a header that
/// does not start so, presents none.
pub open spec fn bearer_of(authorization: Option<Seq<char>>) -> Option<Seq<char>> {
    match authorization {
        Some(header) => if "Bearer "@.is_prefix_of(header) {
            Some(header.skip(7))
        } else {
            None
        },
        None => None,
    }
}

/// The subject that a token's `sub` claim names, where it is an integer
/// that fits a user id.
pub open spec fn subject_of(sub: Option<i64>) -> Option<i32> {
    match sub {
        Some(n) => if i32::MIN <= n <= i32::MAX {
            Some(n as i32)
        } else {
            None
        },
        None => None,
    }
}

impl AuthError {
    /// Whether this error has the given status and message.
    pub open spec fn has(self, status: Status, message: Seq<char>) -> bool {
        self.status == status && self.message@ == message
    }

    /// Whether this is the answer to a request that presents no token.
    pub open spec fn is_missing_token(self) -> bool {
        self.has(Status::Unauthorized, "No authorization token provided"@)
    }

    /// Whether this is the answer to a token that was not accepted.
    pub open spec fn is_invalid_token(self) -> bool {
        self.has(Status::Unauthorized, "Invalid token"@)
    }

    /// Whether this is the answer to a caller who is no administrator.
    pub open spec fn is_admin_required(self) -> bool {
        self.has(Status::Forbidden, "Admin access required"@)
    }

    /// Whether this is the answer when the store could not say if the caller
    /// is an administrator.
    pub open spec fn is_admin_check_failed(self) -> bool {
        self.has(Status::InternalServerError, "Failed to check admin status"@)
    }

    fn new(status: Status, message: &str) -> (e: AuthError)
        ensures
            e.has(status, message@),
    {
        AuthError { status, message: message.to_owned() }
    }
}

/// The token that the `Authorization` header presents.
pub fn bearer_token<'a>(authorization: Option<&'a str>) -> (r: Result<&'a str, AuthError>)
    ensures
        match r {
            Ok(token) => bearer_of(opt_text(authorization)) == Some(token@),
            Err(e) => bearer_of(opt_text(authorization)) is None && e.is_missing_token(),
        },
{
    proof {
        reveal_strlit("Bearer ");
    }
    match authorization {
        Some(header) => {
            let v = chars_of(header);
            if v.len() >= 7 && spells(&v, 0, 7, "Bearer ") {
                assert(header@.subrange(7, v.len() as int) == header@.skip(7));
                Ok(header.substring_char(7, v.len()))
            } else {
                Err(AuthError::new(Status::Unauthorized, "No authorization token provided"))
            }
        },
        None => Err(AuthError::new(Status::Unauthorized, "No authorization token provided")),
    }
}

/// The user that a decoded `sub` claim names.
pub fn subject_of_claim(sub: Option<i64>) -> (r: Result<i32, AuthError>)
    ensures
        match r {
            Ok(id) => subject_of(sub) == Some(id),
            Err(e) => subject_of(sub) is None && e.is_invalid_token(),
        },
{
    match sub {
        Some(n) => {
            if -2147483648 <= n && n <= 2147483647 {
                Ok(n as i32)
            } else {
                Err(AuthError::new(Status::Unauthorized, "Invalid token"))
            }
        },
        None => Err(AuthError::new(Status::Unauthorized, "Invalid token")),
    }
}

/// Verifies an HS256 token against `secret` and reads the user it is issued
/// to. A token passes only if it is signed under `secret`, and then yields
/// the user that its payload names. A token that is not so signed, that the
/// decoder turns away for its age, or whose payload names no user, is an
/// invalid token.
pub fn token_subject(token: &str, secret: &[u8]) -> (r: Result<i32, AuthError>)
    ensures
        match r {
            Ok(id) => hs256_signed(token@, secret@) && token_user(token@) == Some(id),
            Err(e) => e.is_invalid_token(),
        },
        !hs256_signed(token@, secret@) || token_user(token@) is None ==> r is Err,
{
    match decode_hs256_claim(token, secret, "sub") {
        Ok(sub) => subject_of_claim(sub),
        Err(_) => Err(AuthError::new(Status::Unauthorized, "Invalid token")),
    }
}

/// Identifies the caller of a request from its `Authorization` header: the
/// user that the payload of its bearer token names, where the decoder
/// accepts the token. Every failure is answered with 401, and a request
/// always fails where it presents no bearer token, where its token is not
/// signed under `secret`, or where its token names no user.
pub fn authenticate(authorization: Option<&str>, secret: &[u8]) -> (r: Result<i32, AuthError>)
    ensures
        match r {
            Ok(id) => admissible_user(opt_text(authorization), secret@) == Some(id),
            Err(e) => e.status == Status::Unauthorized && if bearer_of(opt_text(authorization))
                is None {
                e.is_missing_token()
            } else {
                e.is_invalid_token()
            },
        },
        admissible_user(opt_text(authorization), secret@) is None ==> (r matches Err(e)
            && e.status == Status::Unauthorized),
{
    match bearer_token(authorization) {
        Ok(token) => token_subject(token, secret),
        Err(e) => Err(e),
    }
}

/// Guards a protected route: lets the request through only if it presents
/// a bearer token that is signed under `secret` and names a user, and that
/// the decoder accepts. Every other request is answered with 401.
pub fn require_auth(authorization: Option<&str>, secret: &[u8]) -> (r: Result<(), AuthError>)
    ensures
        match r {
            Ok(_) => admissible_user(opt_text(authorization), secret@) is Some,
            Err(e) => e.status == Status::Unauthorized && if bearer_of(opt_text(authorization))
                is None {
                e.is_missing_token()
            } else {
                e.is_invalid_token()
            },
        },
        admissible_user(opt_text(authorization), secret@) is None ==> (r matches Err(e)
            && e.status == Status::Unauthorized),
{
    match authenticate(authorization, secret) {
        Ok(_) => Ok(()),
        Err(e) => Err(e),
    }
}

/// Guards an admin-only route: lets an authenticated caller through only
/// if they administer the service, and answers 403 otherwise.
pub fn require_admin(auth_user: AuthUser) -> (r: Result<(), AuthError>)
    ensures
        match r {
            Ok(_) => auth_user.is_admin,
            Err(e) => !auth_user.is_admin && e.is_admin_required(),
        },
{
    if !auth_user.is_admin {
        return Err(AuthError::new(Status::Forbidden, "Admin access required"));
    }
    Ok(())
}

impl AuthUser {
    /// The authenticated caller, once the store has said whether the user
    /// that the token names is an administrator; `None` stands for a store
    /// that could not say, which is answered with 500.
    pub fn resolve(user_id: i32, admin: Option<bool>) -> (r: Result<AuthUser, AuthError>)
        ensures
            match r {
                Ok(user) => admin == Some(user.is_admin) && user.user_id == user_id,
                Err(e) => admin is None && e.is_admin_check_failed(),
            },
    {
        match admin {
            Some(is_admin) => Ok(AuthUser { user_id, is_admin }),
            None => Err(
                AuthError::new(Status::InternalServerError, "Failed to check admin status"),
            ),
        }
    }
}

} // verus!
