//! Tokens for a Docker registry.

use crate::error::{at, fail, failure, ApiError, Failure, Status};
use crate::laws::docker::kid_has_twelve_groups;
use crate::models::{
    BasicAuth, DockerAccess, DockerAccessView, DockerTokenClaims, DockerTokenClaimsView,
    DockerTokenResponse,
};
use crate::outside::clock::{clocked, read_clock, seconds, shown};
use crate::outside::json::{
    flat, json_fields, json_object, json_put_natural, json_put_objects, json_put_text,
    json_put_texts,
    no_fields, object_list, shallow, text_list, JsonView,
};
use crate::outside::jwt::{
    check_ec_pem, ec_jwt_reads, ec_pem_error, ec_signed, make_ec_token, written_pem, TokenHeader,
    TokenHeaderView,
};
use crate::outside::random::{draw_text, drawn, token_of};
use crate::outside::registry_key::{
    base32_encode, base32_text, digest, pkcs8_pem, pkcs8_secret, public_der, read_pkcs8_pem,
    read_sec1_pem, sec1_secret, sha256, write_pkcs8_pem, write_public_der,
};
use crate::outside::told_text;
use crate::tokens::settled_text;
use crate::splitting::{
    cut_in_two, cut_into_pieces, first_cut, has_part, holds, pieces, Separator,
};
use crate::text::{maybe_text, text_or_empty, text_or_none, texts};
use vstd::prelude::*;

verus! {

/// A text in groups of four characters with colons between them.
pub open spec fn in_fours(text: Seq<char>) -> Seq<char>
    decreases text.len(),
{
    if text.len() <= 4 {
        text
    } else {
        text.take(4) + ":"@ + in_fours(text.skip(4))
    }
}

/// Writes a text in groups of four characters with colons between them.
pub fn write_in_fours(text: &str) -> (r: String)
    ensures
        r@ == in_fours(text@),
    decreases text@.len(),
{
    let len = text.unicode_len();
    if len <= 4 {
        text.to_owned()
    } else {
        let head = text.substring_char(0, 4);
        let tail = text.substring_char(4, len);
        assert(head@ =~= text@.take(4));
        assert(tail@ =~= text@.skip(4));
        head.to_owned().concat(":").concat(write_in_fours(tail).as_str())
    }
}

/// The id of a key whose public half has the given digest: the first 240 bits of
/// the digest in base 32, in groups of four.
pub open spec fn kid_of_digest(digest: Seq<u8>) -> Seq<char> {
    in_fours(base32_text(digest.take(30)))
}

/// Writes the id of a key whose public half has the given digest.
pub fn write_kid(digest: &Vec<u8>) -> (r: String)
    requires
        digest@.len() >= 30,
    ensures
        r@ == kid_of_digest(digest@),
{
    let mut truncated: Vec<u8> = Vec::new();
    let mut i: usize = 0;
    while i < 30
        invariant
            i <= 30,
            digest@.len() >= 30,
            truncated@ == digest@.take(i as int),
        decreases 30 - i,
    {
        truncated.push(digest[i]);
        i = i + 1;
        assert(truncated@ =~= digest@.take(i as int));
    }
    write_in_fours(base32_encode(&truncated).as_str())
}

/// A character of a key id in base 32.
pub open spec fn in_base32(c: char) -> bool {
    ('A' <= c <= 'Z') || ('2' <= c <= '7')
}

/// Twelve groups of four characters in base 32 with colons between them.
pub open spec fn twelve_groups(kid: Seq<char>) -> bool {
    &&& kid.len() == 59
    &&& forall|i: int|
        0 <= i < 59 ==> if i % 5 == 4 {
            #[trigger] kid[i] == ':'
        } else {
            in_base32(kid[i])
        }
}

/// The id of a signing key in the manner of libtrust, or the failure to encode
/// its public half.
pub open spec fn libtrust_kid(secret: Seq<u8>) -> Result<Seq<char>, Failure> {
    match public_der(secret) {
        Ok(der) => Ok(kid_of_digest(sha256(der))),
        Err(e) => Err(
            failure(
                Status::InternalServerError,
                at("compute_libtrust_kid"@, "encoding public key to DER"@),
                e,
            ),
        ),
    }
}

/// Computes the id of a signing key, which is given by its secret number.
pub fn compute_libtrust_kid(secret: &Vec<u8>) -> (r: Result<String, ApiError>)
    ensures
        settled_text(r) == libtrust_kid(secret@),
        r matches Ok(kid) ==> twelve_groups(kid@),
{
    match write_public_der(secret) {
        Ok(der) => {
            let hash = digest(&der);
            proof {
                kid_has_twelve_groups(hash@);
            }
            Ok(write_kid(&hash))
        },
        Err(e) => Err(
            fail(
                Status::InternalServerError,
                "compute_libtrust_kid",
                "encoding public key to DER",
                e.as_str(),
            ),
        ),
    }
}

/// What one word of a scope gives access to: a type of resource, a name and
/// actions, between colons. Further colons belong to the actions, which stand
/// between commas. A word with fewer colons gives access to nothing.
pub open spec fn scope_entry(word: Seq<char>) -> Option<DockerAccessView> {
    let first = first_cut(word, Separator::Colon);
    let rest = word.skip(first + 1);
    let second = first_cut(rest, Separator::Colon);
    if first == word.len() || second == rest.len() {
        None
    } else {
        Some(
            DockerAccessView {
                resource_type: word.take(first),
                name: rest.take(second),
                actions: pieces(rest.skip(second + 1), Separator::Comma),
            },
        )
    }
}

/// What the words of a scope give access to, in order.
pub open spec fn scope_entries(words: Seq<Seq<char>>) -> Seq<DockerAccessView>
    decreases words.len(),
{
    if words.len() == 0 {
        Seq::empty()
    } else {
        let head = scope_entries(words.drop_last());
        match scope_entry(words.last()) {
            Some(entry) => head.push(entry),
            None => head,
        }
    }
}

/// What a scope gives access to: its words stand between blanks.
pub open spec fn scope_access(scope: Seq<char>) -> Seq<DockerAccessView> {
    scope_entries(pieces(scope, Separator::Blank))
}

/// Reads one word of a scope.
pub fn read_scope_entry(word: &str) -> (r: Option<DockerAccess>)
    ensures
        match r {
            Some(entry) => scope_entry(word@) == Some(entry@),
            None => scope_entry(word@) is None,
        },
{
    match cut_in_two(word, Separator::Colon) {
        None => None,
        Some((resource_type, rest)) => match cut_in_two(rest.as_str(), Separator::Colon) {
            None => None,
            Some((name, actions)) => Some(
                DockerAccess {
                    resource_type,
                    name,
                    actions: cut_into_pieces(actions.as_str(), Separator::Comma),
                },
            ),
        },
    }
}

/// Reads a scope.
pub fn read_scope(scope: &str) -> (r: Vec<DockerAccess>)
    ensures
        r@.map_values(|a: DockerAccess| a@) == scope_access(scope@),
{
    let words = cut_into_pieces(scope, Separator::Blank);
    let ghost all = pieces(scope@, Separator::Blank);
    let mut r: Vec<DockerAccess> = Vec::new();
    let mut i: usize = 0;
    assert(all.take(0) =~= Seq::<Seq<char>>::empty());
    assert(r@.map_values(|a: DockerAccess| a@) =~= scope_entries(all.take(0)));
    while i < words.len()
        invariant
            i <= words.len(),
            all == pieces(scope@, Separator::Blank),
            texts(words@) == all,
            r@.map_values(|a: DockerAccess| a@) == scope_entries(all.take(i as int)),
        decreases words.len() - i,
    {
        let ghost before = r@;
        assert(all.take(i + 1).drop_last() =~= all.take(i as int));
        assert(all.take(i + 1).last() == texts(words@)[i as int]);
        match read_scope_entry(words[i].as_str()) {
            Some(entry) => {
                r.push(entry);
            },
            None => {},
        }
        assert(r@.map_values(|a: DockerAccess| a@) =~= scope_entries(all.take(i + 1)));
        i = i + 1;
    }
    assert(all.take(i as int) =~= all);
    r
}

/// One entry of what a token gives access to, as the fields of a JSON object.
pub open spec fn access_fields(access: DockerAccessView) -> Map<Seq<char>, JsonView> {
    no_fields().insert("type"@, JsonView::Text(access.resource_type)).insert(
        "name"@,
        JsonView::Text(access.name),
    ).insert("actions"@, text_list(access.actions))
}

/// What a token says, as the fields of a JSON object.
pub open spec fn claims_fields(claims: DockerTokenClaimsView) -> Map<Seq<char>, JsonView> {
    no_fields().insert("iss"@, JsonView::Text(claims.iss)).insert(
        "sub"@,
        JsonView::Text(claims.sub),
    ).insert("aud"@, JsonView::Text(claims.aud)).insert(
        "exp"@,
        JsonView::Number(claims.exp as int),
    ).insert("nbf"@, JsonView::Number(claims.nbf as int)).insert(
        "iat"@,
        JsonView::Number(claims.iat as int),
    ).insert("jti"@, JsonView::Text(claims.jti)).insert(
        "access"@,
        object_list(claims.access.map_values(|a: DockerAccessView| access_fields(a))),
    )
}

proof fn claims_are_shallow(claims: DockerTokenClaimsView)
    ensures
        shallow(claims_fields(claims)),
{
    let fields = claims_fields(claims);
    let list = claims.access.map_values(|a: DockerAccessView| access_fields(a));
    assert forall|key: Seq<char>| #[trigger]
        fields.contains_key(key) && key != "access"@ implies flat(fields[key]) by {
    }
    assert(fields["access"@] == object_list(list));
    assert forall|i: int, name: Seq<char>|
        0 <= i < list.len() && #[trigger] list[i].contains_key(name) implies flat(
        list[i][name],
    ) by {
        assert(list[i] == access_fields(claims.access[i]));
    }
}

/// Writes what a token says as a JSON object.
pub fn write_claims(claims: &DockerTokenClaims) -> (r: serde_json::Map<String, serde_json::Value>)
    ensures
        json_fields(r) == claims_fields(claims@),
        shallow(json_fields(r)),
{
    proof {
        claims_are_shallow(claims@);
    }
    let mut access: Vec<serde_json::Map<String, serde_json::Value>> = Vec::new();
    let mut i: usize = 0;
    while i < claims.access.len()
        invariant
            i <= claims.access@.len(),
            access@.len() == i,
            forall|j: int|
                0 <= j < i ==> json_fields(#[trigger] access@[j]) == access_fields(
                    claims.access@[j]@,
                ),
        decreases claims.access.len() - i,
    {
        let mut entry = json_object();
        json_put_text(&mut entry, "type", claims.access[i].resource_type.as_str());
        json_put_text(&mut entry, "name", claims.access[i].name.as_str());
        json_put_texts(&mut entry, "actions", &claims.access[i].actions);
        access.push(entry);
        i = i + 1;
    }
    assert(access@.map_values(
        |o: serde_json::Map<String, serde_json::Value>| json_fields(o),
    ) =~= claims@.access.map_values(|a: DockerAccessView| access_fields(a)));
    let mut object = json_object();
    json_put_text(&mut object, "iss", claims.iss.as_str());
    json_put_text(&mut object, "sub", claims.sub.as_str());
    json_put_text(&mut object, "aud", claims.aud.as_str());
    json_put_natural(&mut object, "exp", claims.exp);
    json_put_natural(&mut object, "nbf", claims.nbf);
    json_put_natural(&mut object, "iat", claims.iat);
    json_put_text(&mut object, "jti", claims.jti.as_str());
    json_put_objects(&mut object, "access", access);
    object
}

/// What a token says that is made at a time: it holds from ten seconds before to
/// five minutes after.
pub open spec fn docker_claims(
    service: Seq<char>,
    scope: Option<Seq<char>>,
    account: Seq<char>,
    issuer: Option<Seq<char>>,
    now: i64,
    jti: Seq<char>,
) -> DockerTokenClaimsView {
    let issued = seconds(now) as usize;
    DockerTokenClaimsView {
        iss: match issuer {
            Some(name) => name,
            None => "my-auth-server"@,
        },
        sub: account,
        aud: service,
        exp: (seconds(now) + 300) as usize,
        nbf: if issued >= 10 {
            (issued - 10) as usize
        } else {
            0
        },
        iat: issued,
        jti,
        access: match scope {
            Some(text) => scope_access(text),
            None => Seq::empty(),
        },
    }
}

/// Makes up what a token says.
pub fn claim_docker_token(
    service: &str,
    scope: &Option<String>,
    account: &str,
    issuer: &Option<String>,
    now: i64,
    jti: String,
) -> (r: DockerTokenClaims)
    requires
        shown(now),
    ensures
        r@ == docker_claims(
            service@,
            maybe_text(*scope),
            account@,
            maybe_text(*issuer),
            now,
            jti@,
        ),
{
    let access = match scope {
        Some(text) => read_scope(text.as_str()),
        None => {
            let none: Vec<DockerAccess> = Vec::new();
            assert(none@.map_values(|a: DockerAccess| a@) =~= Seq::<DockerAccessView>::empty());
            none
        },
    };
    let time: i64 = now / 1_000_000;
    let issued: usize = time as usize;
    DockerTokenClaims {
        iss: match issuer {
            Some(name) => name.clone(),
            None => "my-auth-server".to_owned(),
        },
        sub: account.to_owned(),
        aud: service.to_owned(),
        exp: (time + 300) as usize,
        nbf: issued.saturating_sub(10),
        iat: issued,
        jti,
        access,
    }
}

/// A failure of [`generate_docker_token`].
pub open spec fn docker_failure(what: Seq<char>, cause: Seq<char>) -> Failure {
    failure(Status::InternalServerError, at("generate_docker_token"@, what), cause)
}

/// The key with which tokens are signed, and its id.
pub struct RegistryKeyView {
    pub pem: Seq<char>,
    pub kid: Seq<char>,
}

/// The secret number of the key that the environment gives: in the format of
/// SEC 1 if the text says so, otherwise in that of PKCS 8.
pub open spec fn registry_secret(pem: Result<Seq<char>, Seq<char>>) -> Result<Seq<u8>, Failure> {
    match pem {
        Err(e) => Err(docker_failure("reading DOCKER_REGISTRY_PRIVATE_KEY env var"@, e)),
        Ok(text) => if holds(text, "BEGIN EC PRIVATE KEY"@) {
            match sec1_secret(text) {
                Ok(secret) => Ok(secret),
                Err(e) => Err(docker_failure("parsing SEC1 PEM private key"@, e)),
            }
        } else {
            match pkcs8_secret(text) {
                Ok(secret) => Ok(secret),
                Err(e) => Err(docker_failure("parsing PKCS8 PEM private key"@, e)),
            }
        },
    }
}

/// The key with which tokens are signed: it is handed on in the format of PKCS 8,
/// whatever it was given in.
pub open spec fn registry_key(pem: Result<Seq<char>, Seq<char>>) -> Result<
    RegistryKeyView,
    Failure,
> {
    match registry_secret(pem) {
        Err(f) => Err(f),
        Ok(secret) => match libtrust_kid(secret) {
            Err(f) => Err(f),
            Ok(kid) => match pkcs8_pem(secret) {
                Err(e) => Err(docker_failure("re-encoding key as PKCS8 PEM"@, e)),
                Ok(pem) => match ec_pem_error(pem) {
                    Some(e) => Err(docker_failure("building EC encoding key"@, e)),
                    None => Ok(RegistryKeyView { pem, kid }),
                },
            },
        },
    }
}

fn docker_fail(what: &str, cause: &str) -> (r: ApiError)
    ensures
        r@ == docker_failure(what@, cause@),
{
    fail(Status::InternalServerError, "generate_docker_token", what, cause)
}

fn read_registry_secret(pem: &Result<String, String>) -> (r: Result<Vec<u8>, ApiError>)
    ensures
        match r {
            Ok(secret) => registry_secret(told_text(*pem)) == Ok::<Seq<u8>, Failure>(secret@),
            Err(e) => registry_secret(told_text(*pem)) == Err::<Seq<u8>, Failure>(e@),
        },
{
    match pem {
        Err(e) => Err(docker_fail("reading DOCKER_REGISTRY_PRIVATE_KEY env var", e.as_str())),
        Ok(text) => if has_part(text.as_str(), "BEGIN EC PRIVATE KEY") {
            match read_sec1_pem(text.as_str()) {
                Ok(secret) => Ok(secret),
                Err(e) => Err(docker_fail("parsing SEC1 PEM private key", e.as_str())),
            }
        } else {
            match read_pkcs8_pem(text.as_str()) {
                Ok(secret) => Ok(secret),
                Err(e) => Err(docker_fail("parsing PKCS8 PEM private key", e.as_str())),
            }
        },
    }
}

/// Reads the key with which tokens are signed: its text in the format of PKCS 8,
/// and its id.
pub fn read_registry_key(pem: &Result<String, String>) -> (r: Result<(String, String), ApiError>)
    ensures
        match r {
            Ok((text, kid)) => registry_key(told_text(*pem)) == Ok::<RegistryKeyView, Failure>(
                RegistryKeyView { pem: text@, kid: kid@ },
            ) && written_pem(text@) && twelve_groups(kid@),
            Err(e) => registry_key(told_text(*pem)) == Err::<RegistryKeyView, Failure>(e@),
        },
{
    match read_registry_secret(pem) {
        Err(e) => Err(e),
        Ok(secret) => match compute_libtrust_kid(&secret) {
            Err(e) => Err(e),
            Ok(kid) => match write_pkcs8_pem(&secret) {
                Err(e) => Err(docker_fail("re-encoding key as PKCS8 PEM", e.as_str())),
                Ok(text) => match check_ec_pem(text.as_str()) {
                    Err(e) => Err(docker_fail("building EC encoding key", e.as_str())),
                    Ok(()) => Ok((text, kid)),
                },
            },
        },
    }
}

/// The header of a token that the key of an id signs.
pub open spec fn docker_header(kid: Seq<char>) -> TokenHeaderView {
    TokenHeaderView { algorithm: "ES256"@, typ: "JWT"@, kid }
}

/// Whether a result is one that is owed for a key and what the token says. With
/// the key, a token is made in which the header, with the id of the key, and the
/// claims are read, unless the signing of just that fails.
pub open spec fn docker_token_for(
    key: Result<RegistryKeyView, Failure>,
    claims: DockerTokenClaimsView,
    r: Result<DockerTokenResponse, ApiError>,
) -> bool {
    match (key, r) {
        (Err(f), Err(e)) => e@ == f,
        (Err(f), Ok(_)) => false,
        (Ok(key), Ok(response)) => {
            &&& response.expires_in == 300
            &&& ec_jwt_reads(response.token@, key.pem) == Some(
                (docker_header(key.kid), claims_fields(claims)),
            )
            &&& ec_signed(
                claims_fields(claims),
                docker_header(key.kid),
                key.pem,
                Ok(response.token),
            )
        },
        (Ok(key), Err(e)) => exists|cause: String| #[trigger]
            ec_signed(claims_fields(claims), docker_header(key.kid), key.pem, Err(cause)) && e@
                == docker_failure("encoding JWT"@, cause@),
    }
}

/// What is answered once the signing of a token came back.
pub fn answer_docker_token(signed: Result<String, String>) -> (r: Result<
    DockerTokenResponse,
    ApiError,
>)
    ensures
        match signed {
            Ok(token) => r == Ok::<DockerTokenResponse, ApiError>(
                DockerTokenResponse { token, expires_in: 300 },
            ),
            Err(e) => r matches Err(f) && f@ == docker_failure("encoding JWT"@, e@),
        },
{
    match signed {
        Ok(token) => Ok(DockerTokenResponse { token, expires_in: 300 }),
        Err(e) => Err(docker_fail("encoding JWT", e.as_str())),
    }
}

/// Makes a token for a Docker registry as of a given time and with a given id.
/// The key and the issuer are what the environment gave for them.
pub fn generate_docker_token_at(
    now: i64,
    jti: String,
    service: &str,
    scope: &Option<String>,
    account: &str,
    pem: &Result<String, String>,
    issuer: &Option<String>,
) -> (r: Result<DockerTokenResponse, ApiError>)
    requires
        shown(now),
    ensures
        docker_token_for(
            registry_key(told_text(*pem)),
            docker_claims(
                service@,
                maybe_text(*scope),
                account@,
                maybe_text(*issuer),
                now,
                jti@,
            ),
            r,
        ),
{
    match read_registry_key(pem) {
        Err(e) => Err(e),
        Ok((text, kid)) => {
            let claims = claim_docker_token(service, scope, account, issuer, now, jti);
            let object = write_claims(&claims);
            let header = TokenHeader {
                algorithm: "ES256".to_owned(),
                typ: "JWT".to_owned(),
                kid,
            };
            answer_docker_token(make_ec_token(&object, &header, text.as_str()))
        },
    }
}

/// Whether a result is one that is owed for a request at a time that the clock gave
/// and with an id of 32 letters and digits that was drawn.
pub open spec fn docker_token_some_time(
    service: Seq<char>,
    scope: Option<Seq<char>>,
    account: Seq<char>,
    pem: Result<Seq<char>, Seq<char>>,
    issuer: Option<Seq<char>>,
    r: Result<DockerTokenResponse, ApiError>,
) -> bool {
    exists|now: i64, jti: Seq<char>| #[trigger]
        shown(now) && #[trigger] token_of(32, jti) && clocked(now) && drawn(32, jti)
            && docker_token_for(
            registry_key(pem),
            docker_claims(service, scope, account, issuer, now, jti),
            r,
        )
}

/// Makes a token for a Docker registry.
pub fn generate_docker_token(
    service: &str,
    scope: &Option<String>,
    account: &str,
    pem: &Result<String, String>,
    issuer: &Option<String>,
) -> (r: Result<DockerTokenResponse, ApiError>)
    ensures
        docker_token_some_time(
            service@,
            maybe_text(*scope),
            account@,
            told_text(*pem),
            maybe_text(*issuer),
            r,
        ),
{
    let now = read_clock();
    let jti = draw_text(32);
    generate_docker_token_at(now, jti, service, scope, account, pem, issuer)
}

/// Whom a token is for: the authenticated subject; without one, the account that
/// the request names; without that, nobody in particular.
pub open spec fn docker_subject(auth: BasicAuth, account: Option<String>) -> Seq<char> {
    if auth.subject@.len() > 0 {
        auth.subject@
    } else {
        text_or_empty(account)
    }
}

/// Tells whom a token is for.
pub fn subject_of(auth: BasicAuth, account: &Option<String>) -> (r: String)
    ensures
        r@ == docker_subject(auth, *account),
{
    if auth.subject.as_str().unicode_len() > 0 {
        auth.subject
    } else {
        text_or_none(account)
    }
}

/// Answers a request for a token for a Docker registry. The key and the issuer
/// are what the environment gave for them.
pub fn get_docker_token(
    auth: BasicAuth,
    service: String,
    scope: Option<String>,
    account: Option<String>,
    pem: Result<String, String>,
    issuer: Option<String>,
) -> (r: Result<DockerTokenResponse, ApiError>)
    ensures
        docker_token_some_time(
            service@,
            maybe_text(scope),
            docker_subject(auth, account),
            told_text(pem),
            maybe_text(issuer),
            r,
        ),
{
    let subject = subject_of(auth, &account);
    generate_docker_token(service.as_str(), &scope, subject.as_str(), &pem, &issuer)
}

} // verus!
