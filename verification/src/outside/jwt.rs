//! JSON web tokens, by jsonwebtoken, over the claims of ginger_shared_rs.

use crate::models::{APIClaims, APIClaimsView, Claims, ClaimsView};
use crate::outside::json::{json_fields, shallow, JsonView};
use crate::outside::registry_key::pkcs8_pem;
use crate::outside::{returned_for_three, returned_for_two, told, told_text};
use ginger_shared_rs::rocket_utils;
use jsonwebtoken::{Algorithm, DecodingKey, EncodingKey, Header, Validation};
use vstd::prelude::*;

verus! {

/// What `jsonwebtoken::encode` makes of claims and a secret, with the default
/// header: a token, or the debug text of its error.
pub uninterp spec fn jwt_of_claims(claims: ClaimsView, secret: Seq<char>) -> Result<
    Seq<char>,
    Seq<char>,
>;

/// The claims that `jsonwebtoken::decode` reads in a token whose signature the
/// secret verifies with HS256; none if it reads none, whatever the time.
pub uninterp spec fn claims_of_jwt(token: Seq<char>, secret: Seq<char>) -> Option<ClaimsView>;

/// Calls `jsonwebtoken::encode` with the default header. The token depends on
/// the claims and the secret alone, and the claims are read in it again.
#[verifier::external_body]
pub(crate) fn sign_claims(claims: &Claims, secret: &str) -> (r: Result<String, String>)
    ensures
        told_text(r) == jwt_of_claims(claims@, secret@),
        r matches Ok(token) ==> claims_of_jwt(token@, secret@) == Some(claims@),
{
    let claims = rocket_utils::Claims {
        sub: claims.sub.clone(),
        exp: claims.exp,
        user_id: claims.user_id.clone(),
        token_type: claims.token_type.clone(),
        first_name: claims.first_name.clone(),
        last_name: claims.last_name.clone(),
        middle_name: claims.middle_name.clone(),
        client_id: claims.client_id.clone(),
    };
    jsonwebtoken::encode(&Header::default(), &claims, &EncodingKey::from_secret(secret.as_bytes()))
        .map_err(|e| format!("{:?}", e))
}

/// Calls `jsonwebtoken::decode` with the default validation of HS256. What it
/// reads is what the token carries. It refuses an expired token, so that whether
/// it reads anything depends on the time too; of a refusal nothing is stated.
#[verifier::external_body]
pub(crate) fn read_claims(token: &str, secret: &str) -> (r: Result<Claims, String>)
    ensures
        r matches Ok(claims) ==> claims_of_jwt(token@, secret@) == Some(claims@),
{
    let key = DecodingKey::from_secret(secret.as_bytes());
    match jsonwebtoken::decode::<rocket_utils::Claims>(token, &key, &Validation::new(Algorithm::HS256)) {
        Ok(data) => Ok(Claims {
            sub: data.claims.sub,
            exp: data.claims.exp,
            user_id: data.claims.user_id,
            token_type: data.claims.token_type,
            first_name: data.claims.first_name,
            last_name: data.claims.last_name,
            middle_name: data.claims.middle_name,
            client_id: data.claims.client_id,
        }),
        Err(e) => Err(format!("{:?}", e)),
    }
}

/// Whether an outcome is that of reading the claims in a token: one that a call of
/// [`read_claims`] may have returned.
pub closed spec fn decoded(
    token: Seq<char>,
    secret: Seq<char>,
    r: Result<Claims, String>,
) -> bool {
    exists|t: &str, s: &str|
        t@ == token && s@ == secret && #[trigger] call_ensures(read_claims, (t, s), r)
}

/// What is decoded is what [`read_claims`] returns for the token and the secret, and
/// nothing else.
pub(crate) proof fn decoded_is_returned(
    token: Seq<char>,
    secret: Seq<char>,
    r: Result<Claims, String>,
)
    ensures
        decoded(token, secret, r) <==> exists|t: &str, s: &str|
            t@ == token && s@ == secret && #[trigger] call_ensures(read_claims, (t, s), r),
{
}

/// Reads the claims in a token.
pub(crate) fn decode_claims(token: &str, secret: &str) -> (r: Result<Claims, String>)
    ensures
        decoded(token@, secret@, r),
        r matches Ok(claims) ==> claims_of_jwt(token@, secret@) == Some(claims@),
{
    returned_for_two(read_claims, token, secret)
}

/// What `jsonwebtoken::encode` makes of the claims of a group and a secret, with
/// the default header: a token, or the debug text of its error.
pub uninterp spec fn jwt_of_api_claims(claims: APIClaimsView, secret: Seq<char>) -> Result<
    Seq<char>,
    Seq<char>,
>;

/// The claims of a group that `jsonwebtoken::decode` reads in a token whose
/// signature the secret verifies with HS256; none if it reads none, whatever the
/// time.
pub uninterp spec fn api_claims_of_jwt(token: Seq<char>, secret: Seq<char>) -> Option<
    APIClaimsView,
>;

/// Calls `jsonwebtoken::encode` with the default header. The token depends on
/// the claims and the secret alone, and the claims are read in it again.
#[verifier::external_body]
pub(crate) fn sign_api_claims(claims: &APIClaims, secret: &str) -> (r: Result<String, String>)
    ensures
        told_text(r) == jwt_of_api_claims(claims@, secret@),
        r matches Ok(token) ==> api_claims_of_jwt(token@, secret@) == Some(claims@),
{
    let claims = rocket_utils::APIClaims {
        sub: claims.sub.clone(),
        exp: claims.exp,
        group_id: claims.group_id,
        scopes: claims.scopes.clone(),
    };
    jsonwebtoken::encode(&Header::default(), &claims, &EncodingKey::from_secret(secret.as_bytes()))
        .map_err(|e| format!("{:?}", e))
}

/// The debug text of the error with which `EncodingKey::from_ec_pem` refuses a
/// key; none if it accepts it.
pub uninterp spec fn ec_pem_error(pem: Seq<char>) -> Option<Seq<char>>;

/// Whether a text is what `to_pkcs8_pem` wrote of a key. Such a text is nested only
/// a few levels deep.
pub open spec fn written_pem(pem: Seq<char>) -> bool {
    exists|secret: Seq<u8>| #[trigger] pkcs8_pem(secret) == Ok::<Seq<char>, Seq<char>>(pem)
}

/// Calls `EncodingKey::from_ec_pem` to learn whether it accepts a key. A text that
/// is nested without end would exhaust its stack, so that the text is one that was
/// written here.
#[verifier::external_body]
pub(crate) fn check_ec_pem(pem: &str) -> (r: Result<(), String>)
    requires
        written_pem(pem@),
    ensures
        told(r) == (match ec_pem_error(pem@) {
            Some(e) => Err::<(), Seq<char>>(e),
            None => Ok(()),
        }),
{
    EncodingKey::from_ec_pem(pem.as_bytes()).map(|_| ()).map_err(|e| format!("{:?}", e))
}

/// The header of a token: how it is signed, what it is and with which key.
#[derive(Debug, PartialEq, Eq)]
pub struct TokenHeader {
    pub algorithm: String,
    pub typ: String,
    pub kid: String,
}

/// [`TokenHeader`], as texts.
pub struct TokenHeaderView {
    pub algorithm: Seq<char>,
    pub typ: Seq<char>,
    pub kid: Seq<char>,
}

impl View for TokenHeader {
    type V = TokenHeaderView;

    open spec fn view(&self) -> TokenHeaderView {
        TokenHeaderView { algorithm: self.algorithm@, typ: self.typ@, kid: self.kid@ }
    }
}

/// The header and the claims, as a JSON object, that `jsonwebtoken::decode` reads
/// with the public half of a private key in a token whose signature that key
/// verifies by the algorithm of the header; none if it reads none, whatever the
/// time and the audience.
pub uninterp spec fn ec_jwt_reads(token: Seq<char>, pem: Seq<char>) -> Option<
    (TokenHeaderView, Map<Seq<char>, JsonView>),
>;

/// Calls `jsonwebtoken::encode` with a header and a private key. The signature is
/// made with random numbers; the header and the claims are read in the token
/// again, since claims that are not nested deeply are. Whether it succeeds is not
/// stated: the random numbers may fail.
#[verifier::external_body]
pub(crate) fn sign_with_ec_key(
    claims: &serde_json::Map<String, serde_json::Value>,
    header: &TokenHeader,
    pem: &str,
) -> (r: Result<String, String>)
    requires
        written_pem(pem@),
        shallow(json_fields(*claims)),
    ensures
        r matches Ok(token) ==> ec_jwt_reads(token@, pem@) == Some(
            (header@, json_fields(*claims)),
        ),
{
    let algorithm = header.algorithm.parse::<Algorithm>().map_err(|e| format!("{:?}", e))?;
    let mut named = Header::new(algorithm);
    named.typ = Some(header.typ.clone());
    named.kid = Some(header.kid.clone());
    EncodingKey::from_ec_pem(pem.as_bytes())
        .and_then(|key| jsonwebtoken::encode(&named, claims, &key))
        .map_err(|e| format!("{:?}", e))
}

/// Whether an outcome is that of signing claims with a header and a private key: one
/// that a call of [`sign_with_ec_key`] may have returned.
pub closed spec fn ec_signed(
    claims: Map<Seq<char>, JsonView>,
    header: TokenHeaderView,
    pem: Seq<char>,
    r: Result<String, String>,
) -> bool {
    exists|c: &serde_json::Map<String, serde_json::Value>, h: &TokenHeader, p: &str|
        json_fields(*c) == claims && h@ == header && p@ == pem && #[trigger] call_ensures(
            sign_with_ec_key,
            (c, h, p),
            r,
        )
}

/// What is signed is what [`sign_with_ec_key`] returns for the claims, the header and
/// the key, and nothing else.
pub(crate) proof fn ec_signed_is_returned(
    claims: Map<Seq<char>, JsonView>,
    header: TokenHeaderView,
    pem: Seq<char>,
    r: Result<String, String>,
)
    ensures
        ec_signed(claims, header, pem, r) <==> exists|
            c: &serde_json::Map<String, serde_json::Value>,
            h: &TokenHeader,
            p: &str,
        |
            json_fields(*c) == claims && h@ == header && p@ == pem && #[trigger] call_ensures(
                sign_with_ec_key,
                (c, h, p),
                r,
            ),
{
}

/// Signs claims with a header and a private key.
pub(crate) fn make_ec_token(
    claims: &serde_json::Map<String, serde_json::Value>,
    header: &TokenHeader,
    pem: &str,
) -> (r: Result<String, String>)
    requires
        written_pem(pem@),
        shallow(json_fields(*claims)),
    ensures
        ec_signed(json_fields(*claims), header@, pem@, r),
        r matches Ok(token) ==> ec_jwt_reads(token@, pem@) == Some(
            (header@, json_fields(*claims)),
        ),
{
    returned_for_three(sign_with_ec_key, claims, header, pem)
}

} // verus!
