//! Laws of the tokens for a Docker registry: how a scope is read, what the id of a
//! key looks like, and for how long a token holds.

use crate::error::{ApiError, Failure};
use crate::models::{BasicAuth, DockerAccess, DockerAccessView, DockerTokenResponse};
use crate::outside::clock::{clocked, seconds, shown};
use crate::outside::json::{object_list, text_list, JsonView};
use crate::outside::jwt::{ec_jwt_reads, ec_pem_error, ec_signed, TokenHeaderView};
use crate::outside::random::{drawn, token_of};
use crate::outside::registry_key::{
    base32_text, bit, pkcs8_pem, pkcs8_secret, public_der, sec1_secret, sha256,
};
use crate::outside::told_text;
use crate::routes::docker::{
    access_fields, answer_docker_token, claims_fields, docker_claims, docker_failure, docker_header, docker_subject, docker_token_for,
    docker_token_some_time, generate_docker_token, generate_docker_token_at, get_docker_token,
    in_base32, in_fours, kid_of_digest, read_registry_key, read_scope, registry_key, scope_access,
    scope_entries, scope_entry, twelve_groups, write_kid, RegistryKeyView,
};
use crate::splitting::{
    first_cut, first_cut_is_first, holds, holds_at, parts, pieces, Separator,
};
use crate::text::{maybe_text, texts};
use vstd::prelude::*;

verus! {

/// Whether a text is cut nowhere.
pub open spec fn uncut(text: Seq<char>, separator: Separator) -> bool {
    forall|i: int| 0 <= i < text.len() ==> !separator.is(#[trigger] text[i])
}

proof fn uncut_has_no_cut(text: Seq<char>, separator: Separator)
    requires
        uncut(text, separator),
    ensures
        first_cut(text, separator) == text.len(),
{
    first_cut_is_first(text, separator);
}

proof fn first_cut_of_two(a: Seq<char>, b: Seq<char>, separator: Separator)
    ensures
        first_cut(a + b, separator) == if first_cut(a, separator) < a.len() {
            first_cut(a, separator)
        } else {
            a.len() + first_cut(b, separator)
        },
    decreases a.len(),
{
    first_cut_is_first(a, separator);
    if a.len() == 0 {
        assert(a + b =~= b);
    } else {
        assert((a + b)[0] == a[0]);
        if !separator.is(a[0]) {
            assert((a + b).skip(1) =~= a.skip(1) + b);
            first_cut_of_two(a.skip(1), b, separator);
        }
    }
}

/// The parts of two texts with a cut between them are the parts of the one and the
/// parts of the other.
pub proof fn parts_of_two(a: Seq<char>, c: char, b: Seq<char>, separator: Separator)
    requires
        separator.is(c),
    ensures
        parts(a + seq![c] + b, separator) == parts(a, separator) + parts(b, separator),
    decreases a.len(),
{
    let whole = a + seq![c] + b;
    let rest = seq![c] + b;
    assert(whole =~= a + rest);
    first_cut_of_two(a, rest, separator);
    first_cut_is_first(a, separator);
    assert(rest[0] == c);
    let cut = first_cut(a, separator);
    if cut < a.len() {
        assert(whole.take(cut) =~= a.take(cut));
        assert(whole.skip(cut + 1) =~= a.skip(cut + 1) + seq![c] + b);
        parts_of_two(a.skip(cut + 1), c, b, separator);
        assert(parts(whole, separator) =~= parts(a, separator) + parts(b, separator));
    } else {
        assert(whole.take(cut) =~= a);
        assert(whole.skip(cut + 1) =~= b);
        assert(parts(whole, separator) =~= parts(a, separator) + parts(b, separator));
    }
}

/// The pieces of two texts with a cut between them are the pieces of the one and
/// the pieces of the other.
pub proof fn pieces_of_two(a: Seq<char>, c: char, b: Seq<char>, separator: Separator)
    requires
        separator.is(c),
    ensures
        pieces(a + seq![c] + b, separator) == pieces(a, separator) + pieces(b, separator),
{
    parts_of_two(a, c, b, separator);
    Seq::filter_distributes_over_add(
        parts(a, separator),
        parts(b, separator),
        |part: Seq<char>| part.len() > 0,
    );
}

/// A text that is cut nowhere and is not empty is its only piece.
pub proof fn piece_of_one(text: Seq<char>, separator: Separator)
    requires
        uncut(text, separator),
        text.len() > 0,
    ensures
        pieces(text, separator) == seq![text],
{
    uncut_has_no_cut(text, separator);
    reveal(Seq::filter);
    let some = |part: Seq<char>| part.len() > 0;
    let all = seq![text];
    assert(parts(text, separator) == all);
    assert(all.drop_last() =~= Seq::<Seq<char>>::empty());
    assert(all.filter(some) =~= all);
}

proof fn entries_of_two(a: Seq<Seq<char>>, b: Seq<Seq<char>>)
    ensures
        scope_entries(a + b) == scope_entries(a) + scope_entries(b),
    decreases b.len(),
{
    if b.len() == 0 {
        assert(a + b =~= a);
        assert(scope_entries(a) + scope_entries(b) =~= scope_entries(a));
    } else {
        assert((a + b).drop_last() =~= a + b.drop_last());
        assert((a + b).last() == b.last());
        entries_of_two(a, b.drop_last());
        assert(scope_entries(a + b) =~= scope_entries(a) + scope_entries(b));
    }
}

/// A scope of two scopes with a blank between them gives access to what the one
/// and what the other gives access to.
pub proof fn scope_of_two(a: Seq<char>, blank: char, b: Seq<char>)
    requires
        Separator::Blank.is(blank),
    ensures
        scope_access(a + seq![blank] + b) == scope_access(a) + scope_access(b),
{
    pieces_of_two(a, blank, b, Separator::Blank);
    entries_of_two(pieces(a, Separator::Blank), pieces(b, Separator::Blank));
}

/// A word with a type, a name and actions, neither of the first two with a colon,
/// gives access to just that.
pub proof fn scope_entry_is_read(
    resource_type: Seq<char>,
    name: Seq<char>,
    actions: Seq<char>,
)
    requires
        uncut(resource_type, Separator::Colon),
        uncut(name, Separator::Colon),
    ensures
        scope_entry(resource_type + seq![':'] + name + seq![':'] + actions) == Some(
            DockerAccessView {
                resource_type,
                name,
                actions: pieces(actions, Separator::Comma),
            },
        ),
{
    let tail = seq![':'] + actions;
    let rest = name + tail;
    let word = resource_type + seq![':'] + name + seq![':'] + actions;
    assert(word =~= resource_type + (seq![':'] + rest));
    uncut_has_no_cut(resource_type, Separator::Colon);
    uncut_has_no_cut(name, Separator::Colon);
    first_cut_of_two(resource_type, seq![':'] + rest, Separator::Colon);
    first_cut_of_two(name, tail, Separator::Colon);
    assert((seq![':'] + rest)[0] == ':');
    assert(tail[0] == ':');
    assert(word.take(resource_type.len() as int) =~= resource_type);
    assert(word.skip(resource_type.len() as int + 1) =~= rest);
    assert(rest.take(name.len() as int) =~= name);
    assert(rest.skip(name.len() as int + 1) =~= actions);
}

proof fn bit_is_binary(data: Seq<u8>, place: int)
    ensures
        0 <= bit(data, place) <= 1,
{
}

proof fn base32_is_in_base32(data: Seq<u8>)
    ensures
        base32_text(data).len() == (8 * data.len() + 4) / 5,
        forall|i: int|
            0 <= i < base32_text(data).len() ==> in_base32(#[trigger] base32_text(data)[i]),
{
    assert forall|i: int| 0 <= i < base32_text(data).len() implies in_base32(
        #[trigger] base32_text(data)[i],
    ) by {
        bit_is_binary(data, 5 * i);
        bit_is_binary(data, 5 * i + 1);
        bit_is_binary(data, 5 * i + 2);
        bit_is_binary(data, 5 * i + 3);
        bit_is_binary(data, 5 * i + 4);
    }
}

proof fn fours_are_in_place(text: Seq<char>)
    requires
        text.len() > 0,
    ensures
        in_fours(text).len() == text.len() + (text.len() - 1) / 4,
        forall|i: int|
            0 <= i < in_fours(text).len() ==> #[trigger] in_fours(text)[i] == if i % 5 == 4 {
                ':'
            } else {
                text[i - i / 5]
            },
    decreases text.len(),
{
    reveal_strlit(":");
    if text.len() > 4 {
        let rest = in_fours(text.skip(4));
        fours_are_in_place(text.skip(4));
        assert forall|i: int| 0 <= i < in_fours(text).len() implies #[trigger] in_fours(text)[i]
            == if i % 5 == 4 {
            ':'
        } else {
            text[i - i / 5]
        } by {
            if i >= 5 {
                assert(in_fours(text)[i] == rest[i - 5]);
            }
        }
    }
}

/// The id of a key has 59 characters: twelve groups of four in base 32 with colons
/// between them.
pub proof fn kid_has_twelve_groups(digest: Seq<u8>)
    requires
        digest.len() >= 30,
    ensures
        twelve_groups(kid_of_digest(digest)),
{
    base32_is_in_base32(digest.take(30));
    fours_are_in_place(base32_text(digest.take(30)));
}

/// A token holds from ten seconds before it was issued to five minutes after.
pub proof fn docker_token_holds_five_minutes(
    service: Seq<char>,
    scope: Option<Seq<char>>,
    account: Seq<char>,
    issuer: Option<Seq<char>>,
    now: i64,
    jti: Seq<char>,
)
    requires
        10 <= seconds(now),
        seconds(now) + 300 <= usize::MAX,
    ensures
        docker_claims(service, scope, account, issuer, now, jti).iat == seconds(now),
        docker_claims(service, scope, account, issuer, now, jti).exp == seconds(now) + 300,
        docker_claims(service, scope, account, issuer, now, jti).nbf == seconds(now) - 10,
{
}

/// A key gives the same id and signs in the same way whether it is kept in the
/// format of SEC 1 or in that of PKCS 8.
pub proof fn format_of_key_does_not_matter(sec1: Seq<char>, pkcs8: Seq<char>)
    requires
        holds(sec1, "BEGIN EC PRIVATE KEY"@),
        !holds(pkcs8, "BEGIN EC PRIVATE KEY"@),
        sec1_secret(sec1) is Ok,
        sec1_secret(sec1) == pkcs8_secret(pkcs8),
    ensures
        registry_key(Ok(sec1)) == registry_key(Ok(pkcs8)),
{
}

/// What a token says apart from when it was made and under which id.
pub open spec fn says(
    token: Seq<char>,
    key: RegistryKeyView,
    service: Seq<char>,
    scope: Option<Seq<char>>,
    account: Seq<char>,
    issuer: Option<Seq<char>>,
) -> bool {
    exists|now: i64, jti: Seq<char>|
        ec_jwt_reads(token, key.pem) == Some(
            (
                docker_header(key.kid),
                claims_fields(#[trigger] docker_claims(service, scope, account, issuer, now, jti)),
            ),
        )
}

/// Two requests for the same, the one with a key in the format of SEC 1 and the
/// other with the same key in that of PKCS 8, are answered alike: if tokens come,
/// the same key verifies both, under the same id, and both say the same but for
/// their time and their own id.
pub proof fn same_key_signs_the_same(
    sec1: Seq<char>,
    pkcs8: Seq<char>,
    service: Seq<char>,
    scope: Option<Seq<char>>,
    account: Seq<char>,
    issuer: Option<Seq<char>>,
    one: DockerTokenResponse,
    other: DockerTokenResponse,
)
    requires
        holds(sec1, "BEGIN EC PRIVATE KEY"@),
        !holds(pkcs8, "BEGIN EC PRIVATE KEY"@),
        sec1_secret(sec1) is Ok,
        sec1_secret(sec1) == pkcs8_secret(pkcs8),
        docker_token_some_time(service, scope, account, Ok(sec1), issuer, Ok(one)),
        docker_token_some_time(service, scope, account, Ok(pkcs8), issuer, Ok(other)),
    ensures
        registry_key(Ok(sec1)) matches Ok(key) && says(
            one.token@,
            key,
            service,
            scope,
            account,
            issuer,
        ) && says(other.token@, key, service, scope, account, issuer),
{
    format_of_key_does_not_matter(sec1, pkcs8);
    let (now, jti) = choose|now: i64, jti: Seq<char>| #[trigger]
        shown(now) && #[trigger] token_of(32, jti) && docker_token_for(
            registry_key(Ok(sec1)),
            docker_claims(service, scope, account, issuer, now, jti),
            Ok(one),
        );
    let (then, other_jti) = choose|then: i64, other_jti: Seq<char>| #[trigger]
        shown(then) && #[trigger] token_of(32, other_jti) && docker_token_for(
            registry_key(Ok(pkcs8)),
            docker_claims(service, scope, account, issuer, then, other_jti),
            Ok(other),
        );
    let key = registry_key(Ok(sec1))->Ok_0;
    assert(ec_jwt_reads(one.token@, key.pem) == Some(
        (
            docker_header(key.kid),
            claims_fields(docker_claims(service, scope, account, issuer, now, jti)),
        ),
    ));
    assert(ec_jwt_reads(other.token@, key.pem) == Some(
        (
            docker_header(key.kid),
            claims_fields(docker_claims(service, scope, account, issuer, then, other_jti)),
        ),
    ));
}

/// The empty text has no piece.
pub proof fn no_piece_of_nothing(separator: Separator)
    ensures
        pieces(Seq::empty(), separator).len() == 0,
{
    reveal(Seq::filter);
    let some = |part: Seq<char>| part.len() > 0;
    let all = seq![Seq::<char>::empty()];
    assert(parts(Seq::empty(), separator) == all);
    assert(all.drop_last() =~= Seq::<Seq<char>>::empty());
    assert(all.drop_last().filter(some) =~= Seq::<Seq<char>>::empty());
    assert(!some(all.last()));
}

/// A text is cut at a colon or at a comma and nowhere else, or at white space: at one
/// of the 25 characters that Unicode counts to it.
pub proof fn cuts_are_where_they_should_be(c: char)
    ensures
        Separator::Colon.is(c) <==> c == ':',
        Separator::Comma.is(c) <==> c == ',',
        Separator::Blank.is(c) <==> (c == '\t' || c == '\n' || c == '\u{b}' || c == '\u{c}' || c
            == '\r' || c == ' ' || c == '\u{85}' || c == '\u{a0}' || c == '\u{1680}' || c
            == '\u{2000}' || c == '\u{2001}' || c == '\u{2002}' || c == '\u{2003}' || c
            == '\u{2004}' || c == '\u{2005}' || c == '\u{2006}' || c == '\u{2007}' || c
            == '\u{2008}' || c == '\u{2009}' || c == '\u{200a}' || c == '\u{2028}' || c
            == '\u{2029}' || c == '\u{202f}' || c == '\u{205f}' || c == '\u{3000}'),
{
}

/// A text that stands anywhere in another is found in it, and one that is found
/// stands there.
pub proof fn part_is_found_where_it_stands(before: Seq<char>, part: Seq<char>, after: Seq<char>)
    ensures
        holds(before + part + after, part),
        forall|text: Seq<char>| #[trigger]
            holds(text, part) ==> exists|head: Seq<char>, tail: Seq<char>|
                text == #[trigger] ((head + part) + tail),
{
    let whole = before + part + after;
    let place = before.len() as int;
    assert(whole.subrange(place, place + part.len()) =~= part);
    assert(holds_at(whole, part, place));
    assert forall|text: Seq<char>| #[trigger] holds(text, part) implies exists|
        head: Seq<char>,
        tail: Seq<char>,
    | text == #[trigger] ((head + part) + tail) by {
        let at = choose|at: int| #[trigger] holds_at(text, part, at);
        let head = text.take(at);
        let tail = text.skip(at + part.len());
        assert(text =~= (head + part) + tail);
    }
}

/// Where the first colon of a word stands, and where the second.
pub open spec fn colons_at(word: Seq<char>, first: int, second: int) -> bool {
    &&& 0 <= first < second < word.len()
    &&& word[first] == ':'
    &&& word[second] == ':'
    &&& forall|i: int| 0 <= i < second && i != first ==> #[trigger] word[i] != ':'
}

/// Whether a word has two colons or more.
pub open spec fn has_two_colons(word: Seq<char>) -> bool {
    exists|i: int, j: int|
        0 <= i < j < word.len() && #[trigger] word[i] == ':' && #[trigger] word[j] == ':'
}

/// What a word of a scope, with its first two colons at two places, gives access to,
/// as it stands in a token.
pub open spec fn granted_entry(word: Seq<char>, first: int, second: int) -> JsonView {
    JsonView::Object(
        map![
            "type"@ => JsonView::Text(word.take(first)),
            "name"@ => JsonView::Text(word.subrange(first + 1, second)),
            "actions"@ => text_list(pieces(word.skip(second + 1), Separator::Comma)),
        ],
    )
}

/// Whether the entries of a token are those of some words, in order: one for every
/// word with two colons or more, and no others.
pub open spec fn grants(words: Seq<Seq<char>>, entries: Seq<JsonView>) -> bool
    decreases words.len(),
{
    if words.len() == 0 {
        entries.len() == 0
    } else if has_two_colons(words.last()) {
        &&& entries.len() > 0
        &&& exists|first: int, second: int| #[trigger]
            colons_at(words.last(), first, second) && entries.last() == granted_entry(
                words.last(),
                first,
                second,
            )
        &&& grants(words.drop_last(), entries.drop_last())
    } else {
        grants(words.drop_last(), entries)
    }
}

/// The entries of what a token gives access to, as they stand in it.
spec fn entries_of(access: Seq<DockerAccessView>) -> Seq<JsonView> {
    Seq::new(access.len(), |i: int| JsonView::Object(access_fields(access[i])))
}

proof fn word_is_granted(word: Seq<char>)
    ensures
        has_two_colons(word) <==> scope_entry(word) is Some,
        scope_entry(word) matches Some(entry) ==> exists|first: int, second: int| #[trigger]
            colons_at(word, first, second) && JsonView::Object(access_fields(entry))
                == granted_entry(word, first, second),
{
    let first = first_cut(word, Separator::Colon);
    let rest = word.skip(first + 1);
    let second = first_cut(rest, Separator::Colon);
    first_cut_is_first(word, Separator::Colon);
    first_cut_is_first(rest, Separator::Colon);
    if first < word.len() && second < rest.len() {
        let place = first + 1 + second;
        assert(word[place] == rest[second]);
        assert forall|i: int| 0 <= i < place && i != first implies #[trigger] word[i] != ':' by {
            if i > first {
                assert(word[i] == rest[i - first - 1]);
            }
        }
        assert(colons_at(word, first, place));
        assert(rest.take(second) =~= word.subrange(first + 1, place));
        assert(rest.skip(second + 1) =~= word.skip(place + 1));
        let entry = scope_entry(word)->0;
        assert(access_fields(entry) =~= map![
            "type"@ => JsonView::Text(word.take(first)),
            "name"@ => JsonView::Text(word.subrange(first + 1, place)),
            "actions"@ => text_list(pieces(word.skip(place + 1), Separator::Comma)),
        ]);
        assert(word[first] == ':' && word[place] == ':');
        assert(has_two_colons(word));
    } else if has_two_colons(word) {
        let (i, j) = choose|i: int, j: int|
            0 <= i < j < word.len() && #[trigger] word[i] == ':' && #[trigger] word[j] == ':';
        assert(Separator::Colon.is(word[i]));
        assert(first <= i);
        assert(rest[j - first - 1] == word[j]);
        assert(Separator::Colon.is(rest[j - first - 1]));
    }
}

proof fn words_are_granted(words: Seq<Seq<char>>)
    ensures
        grants(words, entries_of(scope_entries(words))),
    decreases words.len(),
{
    if words.len() > 0 {
        let head = scope_entries(words.drop_last());
        words_are_granted(words.drop_last());
        word_is_granted(words.last());
        match scope_entry(words.last()) {
            Some(entry) => {
                let entries = entries_of(scope_entries(words));
                assert(entries.drop_last() =~= entries_of(head));
                assert(entries.last() == JsonView::Object(access_fields(entry)));
            },
            None => {},
        }
    }
}

/// What a token says, as it is read in it, if it was made at a time under an id and
/// gives access to some entries. Without an issuer it names a default one.
pub open spec fn claims_told(
    service: Seq<char>,
    account: Seq<char>,
    issuer: Option<Seq<char>>,
    now: i64,
    jti: Seq<char>,
    entries: Seq<JsonView>,
) -> Map<Seq<char>, JsonView> {
    map![
        "iss"@ => JsonView::Text(
            if issuer is Some {
                issuer->0
            } else {
                "my-auth-server"@
            },
        ),
        "sub"@ => JsonView::Text(account),
        "aud"@ => JsonView::Text(service),
        "exp"@ => JsonView::Number((seconds(now) + 300) as usize as int),
        "nbf"@ => JsonView::Number(
            if seconds(now) as usize >= 10 {
                seconds(now) as usize - 10
            } else {
                0
            },
        ),
        "iat"@ => JsonView::Number(seconds(now) as usize as int),
        "jti"@ => JsonView::Text(jti),
        "access"@ => JsonView::List(entries),
    ]
}

/// Whether entries are those of a scope: those of its words, or none without one.
pub open spec fn grants_scope(scope: Option<Seq<char>>, entries: Seq<JsonView>) -> bool {
    match scope {
        Some(text) => grants(pieces(text, Separator::Blank), entries),
        None => entries.len() == 0,
    }
}

/// The entries of what a token gives access to that are read in it with a key.
pub open spec fn access_read(token: Seq<char>, pem: Seq<char>) -> Option<Seq<JsonView>> {
    match ec_jwt_reads(token, pem) {
        Some((_, fields)) => match fields["access"@] {
            JsonView::List(entries) => Some(entries),
            _ => None,
        },
        None => None,
    }
}

/// Whether a token, read with a key, has the header of a signed token with the id of
/// the key, and says what was asked for at a time and under an id.
pub open spec fn token_tells(
    token: Seq<char>,
    key: RegistryKeyView,
    service: Seq<char>,
    scope: Option<Seq<char>>,
    account: Seq<char>,
    issuer: Option<Seq<char>>,
    now: i64,
    jti: Seq<char>,
) -> bool {
    exists|entries: Seq<JsonView>|
        ec_jwt_reads(token, key.pem) == Some(
            (
                TokenHeaderView { algorithm: "ES256"@, typ: "JWT"@, kid: key.kid },
                #[trigger] claims_told(service, account, issuer, now, jti, entries),
            ),
        ) && grants_scope(scope, entries)
}

proof fn claims_are_told(
    service: Seq<char>,
    scope: Option<Seq<char>>,
    account: Seq<char>,
    issuer: Option<Seq<char>>,
    now: i64,
    jti: Seq<char>,
)
    ensures
        ({
            let claims = docker_claims(service, scope, account, issuer, now, jti);
            let entries = entries_of(claims.access);
            &&& grants_scope(scope, entries)
            &&& claims_fields(claims) == claims_told(service, account, issuer, now, jti, entries)
            &&& scope is None ==> entries == Seq::<JsonView>::empty()
        }),
{
    let claims = docker_claims(service, scope, account, issuer, now, jti);
    let entries = entries_of(claims.access);
    match scope {
        Some(text) => {
            words_are_granted(pieces(text, Separator::Blank));
        },
        None => {
            assert(entries =~= Seq::<JsonView>::empty());
        },
    }
    let list = claims.access.map_values(|a: DockerAccessView| access_fields(a));
    assert(object_list(list) == JsonView::List(entries)) by {
        assert(Seq::new(list.len(), |i: int| JsonView::Object(list[i])) =~= entries);
    }
    assert(claims_fields(claims) =~= claims_told(service, account, issuer, now, jti, entries));
}

proof fn made_token_tells(
    now: i64,
    jti: Seq<char>,
    service: Seq<char>,
    scope: Option<Seq<char>>,
    account: Seq<char>,
    pem: Result<Seq<char>, Seq<char>>,
    issuer: Option<Seq<char>>,
    response: DockerTokenResponse,
)
    requires
        docker_token_for(
            registry_key(pem),
            docker_claims(service, scope, account, issuer, now, jti),
            Ok(response),
        ),
    ensures
        response.expires_in == 300,
        registry_key(pem) matches Ok(key) && token_tells(
            response.token@,
            key,
            service,
            scope,
            account,
            issuer,
            now,
            jti,
        ) && access_read(response.token@, key.pem) == Some(
            match scope {
                Some(text) => entries_of(scope_access(text)),
                None => Seq::empty(),
            },
        ),
{
    let key = registry_key(pem)->Ok_0;
    let claims = docker_claims(service, scope, account, issuer, now, jti);
    let entries = entries_of(claims.access);
    claims_are_told(service, scope, account, issuer, now, jti);
    assert(ec_jwt_reads(response.token@, key.pem) == Some(
        (
            TokenHeaderView { algorithm: "ES256"@, typ: "JWT"@, kid: key.kid },
            claims_told(service, account, issuer, now, jti, entries),
        ),
    ));
}

/// A token that was made, read with the key of the registry, says for whom, for which
/// service and by whom it was made, since when and until when it holds, and has one
/// entry for every word of the scope with two colons or more, in order.
pub proof fn docker_token_tells_what_was_asked(
    now: i64,
    jti: String,
    service: &str,
    scope: Option<String>,
    account: &str,
    pem: Result<String, String>,
    issuer: Option<String>,
    response: DockerTokenResponse,
)
    requires
        shown(now),
        call_ensures(
            generate_docker_token_at,
            (now, jti, service, &scope, account, &pem, &issuer),
            Ok(response),
        ),
    ensures
        response.expires_in == 300,
        registry_key(told_text(pem)) matches Ok(key) && token_tells(
            response.token@,
            key,
            service@,
            maybe_text(scope),
            account@,
            maybe_text(issuer),
            now,
            jti@,
        ),
{
    made_token_tells(
        now,
        jti@,
        service@,
        maybe_text(scope),
        account@,
        told_text(pem),
        maybe_text(issuer),
        response,
    );
}

/// A token for a scope that consists of two, with a blank between them, gives access
/// to all that a token for the one gives access to, followed by all that a token for
/// the other does, whenever, for whom and under which id each was made.
pub proof fn token_for_two_scopes_grants_both(
    a: Seq<char>,
    blank: char,
    b: Seq<char>,
    now: i64,
    jti: String,
    service: &str,
    scope: String,
    account: &str,
    pem: Result<String, String>,
    issuer: Option<String>,
    response: DockerTokenResponse,
    now_a: i64,
    jti_a: String,
    service_a: &str,
    scope_a: String,
    account_a: &str,
    response_a: DockerTokenResponse,
    now_b: i64,
    jti_b: String,
    service_b: &str,
    scope_b: String,
    account_b: &str,
    response_b: DockerTokenResponse,
)
    requires
        shown(now),
        shown(now_a),
        shown(now_b),
        Separator::Blank.is(blank),
        scope@ == a + seq![blank] + b,
        scope_a@ == a,
        scope_b@ == b,
        call_ensures(
            generate_docker_token_at,
            (now, jti, service, &Some(scope), account, &pem, &issuer),
            Ok(response),
        ),
        call_ensures(
            generate_docker_token_at,
            (now_a, jti_a, service_a, &Some(scope_a), account_a, &pem, &issuer),
            Ok(response_a),
        ),
        call_ensures(
            generate_docker_token_at,
            (now_b, jti_b, service_b, &Some(scope_b), account_b, &pem, &issuer),
            Ok(response_b),
        ),
    ensures
        registry_key(told_text(pem)) matches Ok(key) && access_read(response_a.token@, key.pem)
            matches Some(one) && access_read(response_b.token@, key.pem) matches Some(other)
            && access_read(response.token@, key.pem) == Some(one + other),
{
    let text = told_text(pem);
    let by = maybe_text(issuer);
    made_token_tells(now, jti@, service@, Some(scope@), account@, text, by, response);
    made_token_tells(now_a, jti_a@, service_a@, Some(a), account_a@, text, by, response_a);
    made_token_tells(now_b, jti_b@, service_b@, Some(b), account_b@, text, by, response_b);
    scope_of_two(a, blank, b);
    assert(entries_of(scope_access(a) + scope_access(b)) =~= entries_of(scope_access(a))
        + entries_of(scope_access(b)));
}

/// A token that is made now tells what was asked as of a time that the clock gave,
/// under an id of 32 letters and digits that was drawn.
pub proof fn docker_token_made_now_tells_what_was_asked(
    service: &str,
    scope: Option<String>,
    account: &str,
    pem: Result<String, String>,
    issuer: Option<String>,
    response: DockerTokenResponse,
)
    requires
        call_ensures(
            generate_docker_token,
            (service, &scope, account, &pem, &issuer),
            Ok(response),
        ),
    ensures
        response.expires_in == 300,
        registry_key(told_text(pem)) matches Ok(key) && exists|now: i64, jti: Seq<char>| #[trigger]
            shown(now) && #[trigger] token_of(32, jti) && clocked(now) && drawn(32, jti)
                && token_tells(
                response.token@,
                key,
                service@,
                maybe_text(scope),
                account@,
                maybe_text(issuer),
                now,
                jti,
            ),
{
    let text = told_text(pem);
    let by = maybe_text(issuer);
    let (now, jti) = choose|now: i64, jti: Seq<char>| #[trigger]
        shown(now) && #[trigger] token_of(32, jti) && clocked(now) && drawn(32, jti)
            && docker_token_for(
            registry_key(text),
            docker_claims(service@, maybe_text(scope), account@, by, now, jti),
            Ok(response),
        );
    made_token_tells(now, jti, service@, maybe_text(scope), account@, text, by, response);
    assert(shown(now) && token_of(32, jti));
}

/// A token that a request was answered with is for the subject that authenticated
/// itself and, if none did, for the account that the request names, if it names one.
pub proof fn docker_token_is_for_who_asked(
    auth: BasicAuth,
    service: String,
    scope: Option<String>,
    account: Option<String>,
    pem: Result<String, String>,
    issuer: Option<String>,
    response: DockerTokenResponse,
)
    requires
        call_ensures(
            get_docker_token,
            (auth, service, scope, account, pem, issuer),
            Ok(response),
        ),
    ensures
        response.expires_in == 300,
        registry_key(told_text(pem)) matches Ok(key) && exists|now: i64, jti: Seq<char>| #[trigger]
            shown(now) && #[trigger] token_of(32, jti) && clocked(now) && drawn(32, jti)
                && token_tells(
                response.token@,
                key,
                service@,
                maybe_text(scope),
                if auth.subject@.len() > 0 {
                    auth.subject@
                } else if account is Some {
                    account->0@
                } else {
                    Seq::empty()
                },
                maybe_text(issuer),
                now,
                jti,
            ),
{
    let text = told_text(pem);
    let by = maybe_text(issuer);
    let whom = docker_subject(auth, account);
    let (now, jti) = choose|now: i64, jti: Seq<char>| #[trigger]
        shown(now) && #[trigger] token_of(32, jti) && clocked(now) && drawn(32, jti)
            && docker_token_for(
            registry_key(text),
            docker_claims(service@, maybe_text(scope), whom, by, now, jti),
            Ok(response),
        );
    made_token_tells(now, jti, service@, maybe_text(scope), whom, text, by, response);
    assert(shown(now) && token_of(32, jti));
}

/// Without a key no token is made, and neither with one that cannot be read. With a
/// key, one is made unless the signing of what the token is to say fails, which is then
/// told.
pub proof fn no_docker_token_without_key(
    now: i64,
    jti: String,
    service: &str,
    scope: Option<String>,
    account: &str,
    pem: Result<String, String>,
    issuer: Option<String>,
    r: Result<DockerTokenResponse, ApiError>,
)
    requires
        shown(now),
        call_ensures(
            generate_docker_token_at,
            (now, jti, service, &scope, account, &pem, &issuer),
            r,
        ),
    ensures
        r matches Err(e) ==> e.error && e.status_code == 500,
        pem is Err ==> r is Err,
        registry_key(told_text(pem)) matches Err(f) ==> (r matches Err(e) && e@ == f),
        registry_key(told_text(pem)) matches Ok(key) ==> (r matches Err(e) ==> signing_failed(
            key,
            service@,
            maybe_text(scope),
            account@,
            maybe_text(issuer),
            now,
            jti@,
            e@,
        )),
{
    match (registry_key(told_text(pem)), r) {
        (Ok(key), Err(e)) => {
            let claims = docker_claims(
                service@,
                maybe_text(scope),
                account@,
                maybe_text(issuer),
                now,
                jti@,
            );
            let entries = entries_of(claims.access);
            claims_are_told(service@, maybe_text(scope), account@, maybe_text(issuer), now, jti@);
            let cause = choose|cause: String| #[trigger]
                ec_signed(claims_fields(claims), docker_header(key.kid), key.pem, Err(cause)) && e@
                    == docker_failure("encoding JWT"@, cause@);
            assert(signing_failed_on(
                key,
                claims_told(service@, account@, maybe_text(issuer), now, jti@, entries),
                cause,
                e@,
            ));
        },
        _ => {},
    }
}

/// Whether a failure is that of signing some claims with a key.
pub open spec fn signing_failed_on(
    key: RegistryKeyView,
    fields: Map<Seq<char>, JsonView>,
    cause: String,
    f: Failure,
) -> bool {
    &&& ec_signed(
        fields,
        TokenHeaderView { algorithm: "ES256"@, typ: "JWT"@, kid: key.kid },
        key.pem,
        Err(cause),
    )
    &&& f.message == "generate_docker_token"@ + ": "@ + "encoding JWT"@ + ": "@ + cause@
}

/// Whether a failure is that of signing with a key what a token was to say.
pub open spec fn signing_failed(
    key: RegistryKeyView,
    service: Seq<char>,
    scope: Option<Seq<char>>,
    account: Seq<char>,
    issuer: Option<Seq<char>>,
    now: i64,
    jti: Seq<char>,
    f: Failure,
) -> bool {
    exists|entries: Seq<JsonView>, cause: String| #[trigger]
        signing_failed_on(
            key,
            claims_told(service, account, issuer, now, jti, entries),
            cause,
            f,
        ) && grants_scope(scope, entries)
}

/// The key that signs is the one that the environment gives: it is read in the format
/// of SEC 1 if its text says that it is in that format, and in that of PKCS 8
/// otherwise, and written again in that of PKCS 8. Its id is made of the first 240
/// bits of the digest of its public half, in base 32, with a colon behind every four
/// characters but the last.
pub proof fn registry_key_is_the_one_given(
    pem: Result<String, String>,
    text: String,
    kid: String,
)
    requires
        call_ensures(read_registry_key, (&pem,), Ok((text, kid))),
    ensures
        registry_key(told_text(pem)) == Ok::<RegistryKeyView, Failure>(
            RegistryKeyView { pem: text@, kid: kid@ },
        ),
        pem matches Ok(given) && ({
            let secret = if holds(given@, "BEGIN EC PRIVATE KEY"@) {
                sec1_secret(given@)
            } else {
                pkcs8_secret(given@)
            };
            &&& secret matches Ok(secret)
            &&& pkcs8_pem(secret) == Ok::<Seq<char>, Seq<char>>(text@)
            &&& public_der(secret) matches Ok(der)
            &&& kid@.len() == 59
            &&& sha256(der).len() >= 30 ==> forall|i: int|
                0 <= i < 59 ==> #[trigger] kid@[i] == if i % 5 == 4 {
                    ':'
                } else {
                    base32_text(sha256(der).take(30))[i - i / 5]
                }
        }),
{
    let given = pem->Ok_0;
    let secret = if holds(given@, "BEGIN EC PRIVATE KEY"@) {
        sec1_secret(given@)
    } else {
        pkcs8_secret(given@)
    };
    let der = public_der(secret->Ok_0)->Ok_0;
    if sha256(der).len() >= 30 {
        base32_is_in_base32(sha256(der).take(30));
        fours_are_in_place(base32_text(sha256(der).take(30)));
    }
}

/// The id of a key is that of its public half: the first 240 bits of the digest in
/// base 32, with a colon behind every four characters but the last.
pub proof fn kid_is_made_of_the_digest(digest: Vec<u8>, kid: String)
    requires
        digest@.len() >= 30,
        call_ensures(write_kid, (&digest,), kid),
    ensures
        kid@.len() == 59,
        forall|i: int|
            0 <= i < 59 ==> #[trigger] kid@[i] == if i % 5 == 4 {
                ':'
            } else {
                base32_text(digest@.take(30))[i - i / 5]
            },
{
    base32_is_in_base32(digest@.take(30));
    fours_are_in_place(base32_text(digest@.take(30)));
}

/// A scope that is read has one entry for every word with two colons or more, in
/// order.
pub proof fn scope_is_read_word_by_word(scope: &str, r: Vec<DockerAccess>)
    requires
        call_ensures(read_scope, (scope,), r),
    ensures
        grants(
            pieces(scope@, Separator::Blank),
            Seq::new(
                r@.len(),
                |i: int|
                    JsonView::Object(
                        map![
                            "type"@ => JsonView::Text(r@[i].resource_type@),
                            "name"@ => JsonView::Text(r@[i].name@),
                            "actions"@ => text_list(texts(r@[i].actions@)),
                        ],
                    ),
            ),
        ),
{
    let views = r@.map_values(|a: DockerAccess| a@);
    words_are_granted(pieces(scope@, Separator::Blank));
    let told = Seq::new(
        r@.len(),
        |i: int|
            JsonView::Object(
                map![
                    "type"@ => JsonView::Text(r@[i].resource_type@),
                    "name"@ => JsonView::Text(r@[i].name@),
                    "actions"@ => text_list(texts(r@[i].actions@)),
                ],
            ),
    );
    assert forall|i: int| 0 <= i < r@.len() implies told[i] == entries_of(views)[i] by {
        assert(views[i] == r@[i]@);
        assert(access_fields(views[i]) =~= map![
            "type"@ => JsonView::Text(r@[i].resource_type@),
            "name"@ => JsonView::Text(r@[i].name@),
            "actions"@ => text_list(texts(r@[i].actions@)),
        ]);
    }
    assert(told =~= entries_of(views));
}

/// A token that was signed is handed on as it is, with the five minutes for which it
/// holds, and a failure to sign it is told.
pub proof fn signed_docker_token_is_handed_on(
    signed: Result<String, String>,
    r: Result<DockerTokenResponse, ApiError>,
)
    requires
        call_ensures(answer_docker_token, (signed,), r),
    ensures
        match (signed, r) {
            (Ok(token), Ok(response)) => response.token == token && response.expires_in == 5 * 60,
            (Err(e), Err(f)) => f.error && f.status_code == 500 && f.message@
                == "generate_docker_token"@ + ": "@ + "encoding JWT"@ + ": "@ + e@,
            _ => false,
        },
{
}

/// A key that can be read, in the format that its text says, and of which the public
/// half and the format of PKCS 8 can be written, is accepted if signing with it is.
/// Otherwise the first of these steps that failed is told.
pub proof fn registry_key_is_refused_with_the_reason(
    pem: Result<String, String>,
    r: Result<(String, String), ApiError>,
)
    requires
        call_ensures(read_registry_key, (&pem,), r),
    ensures
        match pem {
            Err(cause) => key_refused(
                r,
                "generate_docker_token"@,
                "reading DOCKER_REGISTRY_PRIVATE_KEY env var"@,
                cause@,
            ),
            Ok(given) => {
                let old = holds(given@, "BEGIN EC PRIVATE KEY"@);
                let secret = if old {
                    sec1_secret(given@)
                } else {
                    pkcs8_secret(given@)
                };
                match secret {
                    Err(cause) => key_refused(
                        r,
                        "generate_docker_token"@,
                        if old {
                            "parsing SEC1 PEM private key"@
                        } else {
                            "parsing PKCS8 PEM private key"@
                        },
                        cause,
                    ),
                    Ok(secret) => match (public_der(secret), pkcs8_pem(secret)) {
                        (Err(cause), _) => key_refused(
                            r,
                            "compute_libtrust_kid"@,
                            "encoding public key to DER"@,
                            cause,
                        ),
                        (Ok(_), Err(cause)) => key_refused(
                            r,
                            "generate_docker_token"@,
                            "re-encoding key as PKCS8 PEM"@,
                            cause,
                        ),
                        (Ok(_), Ok(text)) => match ec_pem_error(text) {
                            Some(cause) => key_refused(
                                r,
                                "generate_docker_token"@,
                                "building EC encoding key"@,
                                cause,
                            ),
                            None => r is Ok,
                        },
                    },
                }
            },
        },
{
}

/// Whether a key was refused by a function that tells what it was doing and why it
/// failed.
pub open spec fn key_refused(
    r: Result<(String, String), ApiError>,
    by: Seq<char>,
    what: Seq<char>,
    cause: Seq<char>,
) -> bool {
    r matches Err(e) && e@ == (Failure {
        error: true,
        message: by + ": "@ + what + ": "@ + cause,
        status_code: 500,
    })
}

} // verus!
