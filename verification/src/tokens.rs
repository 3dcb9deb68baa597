//! Tokens for users.

use crate::error::{at, fail, failure, ApiError, Failure, Status};
use crate::models::{Claims, ClaimsView, TokenOrder, TokenOrderView, User};
use crate::outside::clock::{clocked, read_clock, seconds, shown, FIRST_SECOND, LAST_SECOND};
use crate::outside::jwt::{claims_of_jwt, jwt_of_claims, sign_claims};
use crate::outside::std_text::{debug_of_text, text_debug};
use crate::outside::told_text;
use crate::text::{copy_maybe, copy_outcome, decimal, integer_text, maybe_text, same_text};
use vstd::prelude::*;

verus! {

/// For how many seconds a token of a type holds: an access token for a quarter
/// of an hour, a refresh token for ten hours. There are no others.
pub open spec fn lifetime(token_type: Seq<char>) -> Option<int> {
    if token_type == "access"@ {
        Some(900)
    } else if token_type == "refresh"@ {
        Some(36_000)
    } else {
        None
    }
}

/// What a token says that is made at a time and holds for some seconds.
pub open spec fn ordered_claims(order: TokenOrderView, now: i64, lifetime: int) -> ClaimsView {
    ClaimsView {
        sub: order.email,
        exp: (seconds(now) + lifetime) as usize,
        user_id: order.user_id,
        token_type: order.token_type,
        first_name: order.first_name,
        last_name: order.last_name,
        middle_name: order.middle_name,
        client_id: order.client_id,
    }
}

/// What comes of an order for a token at a time.
pub open spec fn jwt_at(order: TokenOrderView, now: i64) -> Result<Seq<char>, Failure> {
    match lifetime(order.token_type) {
        None => Err(
            failure(
                Status::InternalServerError,
                at("create_jwt"@, "invalid token_type requested"@),
                text_debug("expected 'access' or 'refresh', got '"@ + order.token_type + "'"@),
            ),
        ),
        Some(lifetime) => match order.secret {
            Err(e) => Err(
                failure(
                    Status::InternalServerError,
                    at("create_jwt"@, "reading JWT_SECRET env var"@),
                    e,
                ),
            ),
            Ok(secret) => match jwt_of_claims(ordered_claims(order, now, lifetime), secret) {
                Ok(token) => Ok(token),
                Err(e) => Err(
                    failure(
                        Status::InternalServerError,
                        at("create_jwt"@, "encoding '"@ + order.token_type + "' token"@),
                        e,
                    ),
                ),
            },
        },
    }
}

/// An outcome that is a text or an error.
pub open spec fn settled_text(r: Result<String, ApiError>) -> Result<Seq<char>, Failure> {
    match r {
        Ok(t) => Ok(t@),
        Err(e) => Err(e@),
    }
}

/// Whether an outcome is what comes of an order for a token at a time. The claims
/// that were ordered are read in the token.
pub open spec fn token_made(
    order: TokenOrderView,
    now: i64,
    r: Result<Seq<char>, Failure>,
) -> bool {
    &&& r == jwt_at(order, now)
    &&& match (r, lifetime(order.token_type), order.secret) {
        (Ok(token), Some(lifetime), Ok(secret)) => claims_of_jwt(token, secret) == Some(
            ordered_claims(order, now, lifetime),
        ),
        _ => true,
    }
}

/// The order that the arguments of [`create_jwt`] make up.
pub open spec fn order_of(
    email: Seq<char>,
    uid: Seq<char>,
    token_type: Seq<char>,
    f_name: Option<String>,
    l_name: Option<String>,
    m_name: Option<String>,
    c_id: Option<String>,
    secret: Result<String, String>,
) -> TokenOrderView {
    TokenOrderView {
        email,
        user_id: uid,
        token_type,
        first_name: maybe_text(f_name),
        last_name: maybe_text(l_name),
        middle_name: maybe_text(m_name),
        client_id: maybe_text(c_id),
        secret: told_text(secret),
    }
}

/// Makes a signed token that says who a user is, as of a given time. The secret
/// is what the environment gave for it. A type of token that does not exist, a
/// missing secret and a failed encoding are errors.
pub fn create_jwt_at(
    now: i64,
    email: &str,
    uid: &str,
    token_type: &str,
    f_name: &Option<String>,
    l_name: &Option<String>,
    m_name: &Option<String>,
    c_id: &Option<String>,
    secret: &Result<String, String>,
) -> (r: Result<String, ApiError>)
    requires
        shown(now),
    ensures
        token_made(
            order_of(email@, uid@, token_type@, *f_name, *l_name, *m_name, *c_id, *secret),
            now,
            settled_text(r),
        ),
{
    let lifetime: i64 = if same_text(token_type, "access") {
        15 * 60
    } else if same_text(token_type, "refresh") {
        10 * 60 * 60
    } else {
        let got = "expected 'access' or 'refresh', got '".to_owned().concat(token_type).concat("'");
        return Err(
            fail(
                Status::InternalServerError,
                "create_jwt",
                "invalid token_type requested",
                debug_of_text(got.as_str()).as_str(),
            ),
        );
    };
    let claims = Claims {
        sub: email.to_owned(),
        exp: (now / 1_000_000 + lifetime) as usize,
        user_id: uid.to_owned(),
        token_type: token_type.to_owned(),
        first_name: copy_maybe(f_name),
        last_name: copy_maybe(l_name),
        middle_name: copy_maybe(m_name),
        client_id: copy_maybe(c_id),
    };
    match secret {
        Err(e) => Err(
            fail(
                Status::InternalServerError,
                "create_jwt",
                "reading JWT_SECRET env var",
                e.as_str(),
            ),
        ),
        Ok(secret) => match sign_claims(&claims, secret.as_str()) {
            Ok(token) => Ok(token),
            Err(e) => Err(
                fail(
                    Status::InternalServerError,
                    "create_jwt",
                    "encoding '".to_owned().concat(token_type).concat("' token").as_str(),
                    e.as_str(),
                ),
            ),
        },
    }
}

/// Makes a signed token that says who a user is, as of now.
pub fn create_jwt(
    email: &str,
    uid: &str,
    token_type: &str,
    f_name: &Option<String>,
    l_name: &Option<String>,
    m_name: &Option<String>,
    c_id: &Option<String>,
    secret: &Result<String, String>,
) -> (r: Result<String, ApiError>)
    ensures
        exists|now: i64|
            #![trigger shown(now)]
            shown(now) && clocked(now) && token_made(
                order_of(email@, uid@, token_type@, *f_name, *l_name, *m_name, *c_id, *secret),
                now,
                settled_text(r),
            ),
{
    let now = read_clock();
    create_jwt_at(now, email, uid, token_type, f_name, l_name, m_name, c_id, secret)
}

/// The order for a token of a user.
pub open spec fn user_order(
    user: User,
    token_type: Seq<char>,
    client_id: Option<Seq<char>>,
    secret: Result<String, String>,
) -> TokenOrderView {
    TokenOrderView {
        email: user.email_id@,
        user_id: decimal(user.id as int),
        token_type,
        first_name: maybe_text(user.first_name),
        last_name: maybe_text(user.last_name),
        middle_name: maybe_text(user.middle_name),
        client_id,
        secret: told_text(secret),
    }
}

/// Orders a token for a user, and for an application if one is named.
pub fn order_for_user(
    user: &User,
    token_type: &str,
    client_id: Option<String>,
    secret: &Result<String, String>,
) -> (r: TokenOrder)
    ensures
        r@ == user_order(*user, token_type@, maybe_text(client_id), *secret),
{
    TokenOrder {
        email: user.email_id.clone(),
        user_id: integer_text(user.id),
        token_type: token_type.to_owned(),
        first_name: copy_maybe(&user.first_name),
        last_name: copy_maybe(&user.last_name),
        middle_name: copy_maybe(&user.middle_name),
        client_id,
        secret: copy_outcome(secret),
    }
}

/// The order for another token of the holder of one.
pub open spec fn holder_order(
    claims: Claims,
    token_type: Seq<char>,
    client_id: Option<Seq<char>>,
    secret: Result<String, String>,
) -> TokenOrderView {
    TokenOrderView {
        email: claims.sub@,
        user_id: claims.user_id@,
        token_type,
        first_name: maybe_text(claims.first_name),
        last_name: maybe_text(claims.last_name),
        middle_name: maybe_text(claims.middle_name),
        client_id,
        secret: told_text(secret),
    }
}

/// Orders another token for the holder of one.
pub fn order_for_holder(
    claims: &Claims,
    token_type: &str,
    client_id: Option<String>,
    secret: &Result<String, String>,
) -> (r: TokenOrder)
    ensures
        r@ == holder_order(*claims, token_type@, maybe_text(client_id), *secret),
{
    TokenOrder {
        email: claims.sub.clone(),
        user_id: claims.user_id.clone(),
        token_type: token_type.to_owned(),
        first_name: copy_maybe(&claims.first_name),
        last_name: copy_maybe(&claims.last_name),
        middle_name: copy_maybe(&claims.middle_name),
        client_id,
        secret: copy_outcome(secret),
    }
}

/// The time, in seconds, that is some seconds after another; none if it is
/// beyond the calendar.
pub open spec fn moment(now: i64, ahead: int) -> Option<i64> {
    let then = seconds(now) + ahead;
    if FIRST_SECOND <= then <= LAST_SECOND {
        Some(then as i64)
    } else {
        None
    }
}

fn floor_division(n: i64, divisor: i64) -> (r: i64)
    requires
        divisor > 1,
    ensures
        r == n as int / divisor as int,
{
    if n >= 0 {
        n / divisor
    } else {
        let r = -((-(n + 1)) / divisor) - 1;
        proof {
            let m = -(n as int + 1);
            let d = divisor as int;
            assert(n as int / d == -(m / d) - 1) by (nonlinear_arith)
                requires
                    m == -(n as int + 1),
                    m >= 0,
                    d > 1,
            {
                let q = m / d;
                let rest = m % d;
                assert(m == q * d + rest && 0 <= rest < d);
                assert(n as int == (-q - 1) * d + (d - 1 - rest));
                assert(0 <= d - 1 - rest < d);
                vstd::arithmetic::div_mod::lemma_fundamental_div_mod_converse(
                    n as int,
                    d,
                    -q - 1,
                    d - 1 - rest,
                );
            }
        }
        r
    }
}

/// The time, in seconds, that is some seconds after another.
pub fn moment_after(now: i64, ahead: i128) -> (r: Option<i64>)
    requires
        -1_000_000_000_000_000_000_000_000 <= ahead <= 1_000_000_000_000_000_000_000_000,
    ensures
        r == moment(now, ahead as int),
{
    let then: i128 = floor_division(now, 1_000_000) as i128 + ahead;
    if FIRST_SECOND as i128 <= then && then <= LAST_SECOND as i128 {
        Some(then as i64)
    } else {
        None
    }
}

/// The day of a time in seconds.
pub fn day_of(time: i64) -> (r: i64)
    ensures
        r == time as int / 86_400,
{
    floor_division(time, 86_400)
}

} // verus!
