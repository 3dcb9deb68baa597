//! Laws of API tokens and session tokens.

use crate::error::{at, refusal, Failure, Status};
use crate::models::{
    APIClaims, APIClaimsView, ApiToken, Claims, ClaimsView, CreateApiTokenRequest, CreateApiTokenResponse,
    CreateSessionTokenRequest, CreateSessionTokenResponse, Group, GroupApiTokenResponse, GroupKey,
    GroupOwnerships,
};
use crate::outside::clock::{seconds, shown, FIRST_SECOND, LAST_SECOND};
use crate::outside::jwt::{api_claims_of_jwt, claims_of_jwt, jwt_of_api_claims};
use crate::protocol::{Handler, NeedView, Outcome, QueryView, Reply};
use crate::routes::api_tokens::{
    claim_api_token, claim_session, create_api_session_token, create_api_session_token_interactive,
    create_api_token, deactivate_api_token, get_api_tokens_by_group, list_tokens, tokens_info,
    CreateApiSessionToken, CreateApiSessionTokenStage, CreateApiToken, CreateApiTokenStage,
    DeactivateApiToken, DeactivateApiTokenStage, GetApiTokens, GetApiTokensStage,
    InteractiveSessionToken, InteractiveSessionTokenStage,
};
use crate::text::{decimal, maybe_text, texts};
use crate::world::{
    begun, deactivated, group_ids_are_unique, group_row, kept_throughout, luck, lucky,
    lucky_is_truthful, new_token_id, served, token_row, truth, truthful, GroupRow, Standing,
    TokenRow, World,
};
use vstd::prelude::*;

verus! {

/// What the making of an API token has left and answered at the end: an active
/// token of the group that says who made it and that expires after the days that
/// were asked for.
pub open spec fn token_stored(
    request: CreateApiToken,
    before: World,
    after: World,
    answer: CreateApiTokenResponse,
    group: GroupRow,
    secret: Seq<char>,
    expiration: i64,
    created_at: i64,
) -> bool {
    &&& before.groups.contains(group)
    &&& group.identifier == request.request.group_identifier@
    &&& before.environment.contains_pair("JWT_SECRET"@, secret)
    &&& exists|now: i64| #[trigger]
        shown(now) && expiration == seconds(now) + request.request.days_to_expire * 86_400
    &&& FIRST_SECOND <= expiration <= LAST_SECOND
    &&& claims_of_jwt(answer.api_token@, secret) == Some(
        ClaimsView { token_type: "api"@, exp: expiration as usize, ..request.claims@ },
    )
    &&& shown(created_at)
    &&& after == World {
        tokens: before.tokens.insert(
            TokenRow {
                id: new_token_id(before.tokens),
                parent_id: group.id,
                expiry_date: (expiration as int / 86_400) as i64,
                created_at,
                is_active: true,
                name: request.request.name@,
                token: Some(answer.api_token@),
            },
        ),
        ..before
    }
}

/// How the making of an API token stands on its way.
spec fn making_token(
    request: CreateApiToken,
    before: World,
    s: Standing<CreateApiToken, CreateApiTokenResponse>,
) -> bool {
    let timely = |expiration: i64|
        FIRST_SECOND <= expiration <= LAST_SECOND && exists|now: i64| #[trigger]
            shown(now) && expiration == seconds(now) + request.request.days_to_expire * 86_400;
    let signed = |token: Seq<char>, expiration: i64|
        before.environment.contains_key("JWT_SECRET"@) && claims_of_jwt(
            token,
            before.environment["JWT_SECRET"@],
        ) == Some(ClaimsView { token_type: "api"@, exp: expiration as usize, ..request.claims@ });
    match s.outcome {
        Outcome::Ask(h) => {
            &&& s.world == before
            &&& h.request == request.request
            &&& h.claims == request.claims
            &&& match h.stage {
                CreateApiTokenStage::OpenDatabase => true,
                CreateApiTokenStage::Clock => true,
                CreateApiTokenStage::Secret { expiration } => timely(expiration),
                CreateApiTokenStage::Sign { expiration, secret } => timely(expiration)
                    && before.environment.contains_pair("JWT_SECRET"@, secret@),
                CreateApiTokenStage::FindGroup { expiration, token } => timely(expiration)
                    && signed(token@, expiration),
                CreateApiTokenStage::Created { expiration, token, group }
                | CreateApiTokenStage::Updated { expiration, token, group, .. }
                | CreateApiTokenStage::Insert { expiration, token, group, .. } => timely(expiration)
                    && signed(token@, expiration) && before.groups.contains(group_row(group))
                    && group.identifier@ == request.request.group_identifier@,
            }
            &&& match h.stage {
                CreateApiTokenStage::Updated { created_at, .. }
                | CreateApiTokenStage::Insert { created_at, .. } => shown(created_at),
                _ => true,
            }
        },
        Outcome::Done(Ok(answer)) => exists|
            group: GroupRow,
            secret: Seq<char>,
            expiration: i64,
            created_at: i64,
        | #[trigger]
            token_stored(request, before, s.world, answer, group, secret, expiration, created_at),
        _ => true,
    }
}

/// An API token that was made is an active one of the group that was named, and
/// says who made it. All else is as before.
pub proof fn api_token_is_stored(request: CreateApiToken, world: World, replies: Seq<Reply>)
    requires
        request.stage is OpenDatabase,
        truthful(begun(request, world), replies),
    ensures
        served(begun(request, world), replies).outcome matches Outcome::Done(Ok(answer))
            ==> exists|group: GroupRow, secret: Seq<char>, expiration: i64, created_at: i64|
            #[trigger]
            token_stored(
                request,
                world,
                served(begun(request, world), replies).world,
                answer,
                group,
                secret,
                expiration,
                created_at,
            ),
{
    assert forall|h: CreateApiToken, now: World, reply: Reply|
        making_token(request, world, begun(h, now)) && #[trigger] truth()(
            now,
            h.asks(),
            reply,
        ) implies making_token(
        request,
        world,
        Standing { outcome: h.next(reply), world: now.left_by(h.asks(), reply) },
    ) by {
        let s = Standing { outcome: h.next(reply), world: now.left_by(h.asks(), reply) };
        match (h.stage, reply) {
            (
                CreateApiTokenStage::Insert { expiration, token, group, created_at, .. },
                Reply::Rows(Ok(_)),
            ) => {
                let answer = CreateApiTokenResponse { api_token: token };
                assert(token_stored(
                    request,
                    world,
                    s.world,
                    answer,
                    group_row(group),
                    world.environment["JWT_SECRET"@],
                    expiration,
                    created_at,
                ));
                assert(s.outcome matches Outcome::Done(Ok(a)) && a == answer);
                assert(making_token(request, world, s));
            },
            _ => {},
        }
    }
    kept_throughout(
        begun(request, world),
        replies,
        truth(),
        |s: Standing<CreateApiToken, CreateApiTokenResponse>| making_token(request, world, s),
    );
}

/// Days that lead beyond the calendar whenever they are counted from.
pub open spec fn beyond_calendar(days_to_expire: i64) -> bool {
    forall|now: i64| #[trigger]
        shown(now) ==> !(FIRST_SECOND <= seconds(now) + days_to_expire * 86_400 <= LAST_SECOND)
}

/// No API token is made that would expire beyond the calendar, and nothing
/// changes. If no service fails, the request is refused as a bad one.
pub proof fn expiry_beyond_calendar_is_refused(
    request: CreateApiToken,
    world: World,
    replies: Seq<Reply>,
)
    requires
        request.stage is OpenDatabase,
        beyond_calendar(request.request.days_to_expire),
        truthful(begun(request, world), replies),
    ensures
        served(begun(request, world), replies).world == world,
        !(served(begun(request, world), replies).outcome matches Outcome::Done(Ok(_))),
        lucky(begun(request, world), replies) ==> (served(
            begun(request, world),
            replies,
        ).outcome matches Outcome::Done(Err(f)) ==> f.status_code == 400 && f == refusal(
            Status::BadRequest,
            at(
                "create_api_token"@,
                "days_to_expire="@ + decimal(request.request.days_to_expire as int)
                    + " is beyond the calendar"@,
            ),
        )),
{
    let kept = |s: Standing<CreateApiToken, CreateApiTokenResponse>, any: bool|
        s.world == world && match s.outcome {
            Outcome::Ask(h) => h.request == request.request && (h.stage is OpenDatabase
                || h.stage is Clock),
            Outcome::Done(Err(f)) => any || f == refusal(
                Status::BadRequest,
                at(
                    "create_api_token"@,
                    "days_to_expire="@ + decimal(request.request.days_to_expire as int)
                        + " is beyond the calendar"@,
                ),
            ),
            _ => false,
        };
    kept_throughout(
        begun(request, world),
        replies,
        truth(),
        |s: Standing<CreateApiToken, CreateApiTokenResponse>| kept(s, true),
    );
    if lucky(begun(request, world), replies) {
        kept_throughout(
            begun(request, world),
            replies,
            luck(),
            |s: Standing<CreateApiToken, CreateApiTokenResponse>| kept(s, false),
        );
    }
}

/// More days than the calendar has, ahead or back, lead beyond it.
pub proof fn too_many_days_lead_beyond_calendar(days_to_expire: i64)
    requires
        days_to_expire * 86_400 > LAST_SECOND || days_to_expire * 86_400 < FIRST_SECOND
            - LAST_SECOND,
    ensures
        beyond_calendar(days_to_expire),
{
}

/// When a session ends that begins at a time: after the days that are asked for, or
/// else after twenty minutes.
pub open spec fn session_end(now: i64, days_to_expire: Option<i64>) -> int {
    match days_to_expire {
        Some(days) => seconds(now) + days * 86_400,
        None => seconds(now) + 1_200,
    }
}

/// What a session token of a group says that ends at a time in seconds and may or
/// may not write.
pub open spec fn group_claims(group: GroupRow, expiration: i64, may_write: bool) -> APIClaimsView {
    APIClaimsView {
        sub: group.identifier,
        exp: expiration as usize,
        group_id: group.id,
        scopes: if may_write {
            seq!["read"@, "write"@]
        } else {
            seq!["read"@]
        },
    }
}

/// What an exchange of an API token has answered at the end: a session token of
/// the group of that API token, which may read and write.
pub open spec fn session_given(
    request: CreateApiSessionToken,
    world: World,
    answer: CreateSessionTokenResponse,
    token: TokenRow,
    group: GroupRow,
    expiration: i64,
) -> bool {
    &&& world.active_token(token, group, request.request.api_token@)
    &&& answer.group_identifier@ == group.identifier
    &&& exists|now: i64| #[trigger]
        shown(now) && expiration == session_end(now, request.request.days_to_expire)
    &&& FIRST_SECOND <= expiration <= LAST_SECOND
    &&& world.environment.contains_key("JWT_SECRET"@)
    &&& jwt_of_api_claims(
        group_claims(group, expiration, true),
        world.environment["JWT_SECRET"@],
    ) == Ok::<Seq<char>, Seq<char>>(answer.session_token@)
    &&& api_claims_of_jwt(answer.session_token@, world.environment["JWT_SECRET"@]) == Some(
        group_claims(group, expiration, true),
    )
}

/// How an exchange of an API token stands on its way.
spec fn exchanging(
    request: CreateApiSessionToken,
    world: World,
    s: Standing<CreateApiSessionToken, CreateSessionTokenResponse>,
) -> bool {
    let r = request.request;
    let timely = |expiration: i64|
        FIRST_SECOND <= expiration <= LAST_SECOND && exists|now: i64| #[trigger]
            shown(now) && expiration == session_end(now, r.days_to_expire);
    s.world == world && match s.outcome {
        Outcome::Ask(h) => h.request == r && match h.stage {
            CreateApiSessionTokenStage::OpenDatabase => true,
            CreateApiSessionTokenStage::FindToken => true,
            CreateApiSessionTokenStage::Clock { api_token, group } => world.active_token(
                token_row(api_token),
                group_row(group),
                r.api_token@,
            ),
            CreateApiSessionTokenStage::Secret { api_token, group, expiration } =>
                world.active_token(token_row(api_token), group_row(group), r.api_token@)
                && timely(expiration),
            CreateApiSessionTokenStage::Sign { api_token, group, expiration, secret } =>
                world.active_token(token_row(api_token), group_row(group), r.api_token@)
                && timely(expiration) && world.environment.contains_pair("JWT_SECRET"@, secret@),
        },
        Outcome::Done(Ok(answer)) => exists|token: TokenRow, group: GroupRow, expiration: i64|
            #[trigger]
            session_given(request, world, answer, token, group, expiration),
        _ => true,
    }
}

/// A session token is given only for an active API token. It is one of the group
/// of that token and may read and write. Nothing changes.
pub proof fn active_token_is_exchanged(
    request: CreateApiSessionToken,
    world: World,
    replies: Seq<Reply>,
)
    requires
        request.stage is OpenDatabase,
        truthful(begun(request, world), replies),
    ensures
        served(begun(request, world), replies).world == world,
        served(begun(request, world), replies).outcome matches Outcome::Done(Ok(answer))
            ==> exists|token: TokenRow, group: GroupRow, expiration: i64| #[trigger]
            session_given(request, world, answer, token, group, expiration),
{
    assert forall|h: CreateApiSessionToken, now: World, reply: Reply|
        exchanging(request, world, begun(h, now)) && #[trigger] truth()(
            now,
            h.asks(),
            reply,
        ) implies exchanging(
        request,
        world,
        Standing { outcome: h.next(reply), world: now.left_by(h.asks(), reply) },
    ) by {
        let s = Standing { outcome: h.next(reply), world: now.left_by(h.asks(), reply) };
        match (h.stage, reply) {
            (
                CreateApiSessionTokenStage::Sign { api_token, group, expiration, .. },
                Reply::Text(Ok(session_token)),
            ) => {
                let answer = CreateSessionTokenResponse {
                    session_token,
                    group_identifier: group.identifier,
                };
                assert(session_given(
                    request,
                    world,
                    answer,
                    token_row(api_token),
                    group_row(group),
                    expiration,
                ));
                assert(s.outcome matches Outcome::Done(Ok(a)) && a == answer);
                assert(exchanging(request, world, s));
            },
            _ => {},
        }
    }
    kept_throughout(
        begun(request, world),
        replies,
        truth(),
        |s: Standing<CreateApiSessionToken, CreateSessionTokenResponse>|
            exchanging(request, world, s),
    );
}

/// Whether a session of some days that begins at some time would end beyond the
/// calendar.
pub open spec fn ends_beyond(days_to_expire: Option<i64>) -> bool {
    exists|now: i64| #[trigger]
        shown(now) && !(FIRST_SECOND <= session_end(now, days_to_expire) <= LAST_SECOND)
}

/// Whether a failure is the refusal of a session that would end beyond the
/// calendar: a bad request if the days were asked for.
pub open spec fn refused_beyond(days_to_expire: Option<i64>, f: Failure) -> bool {
    match days_to_expire {
        Some(days) => f.status_code == 400 && f == refusal(
            Status::BadRequest,
            at(
                "create_api_session_token"@,
                "days_to_expire="@ + decimal(days as int) + " is beyond the calendar"@,
            ),
        ),
        None => f.status_code == 500 && f == refusal(
            Status::InternalServerError,
            at("create_api_session_token"@, "the expiry is beyond the calendar"@),
        ),
    }
}

/// An active API token is exchanged unless a service fails. It is refused only if
/// the session would end beyond the calendar.
pub proof fn active_token_is_not_refused(
    request: CreateApiSessionToken,
    world: World,
    replies: Seq<Reply>,
)
    requires
        request.stage is OpenDatabase,
        world.has_active_token(request.request.api_token@),
        world.environment.contains_key("JWT_SECRET"@),
        lucky(begun(request, world), replies),
    ensures
        served(begun(request, world), replies).outcome matches Outcome::Done(Err(f))
            ==> refused_beyond(request.request.days_to_expire, f) && ends_beyond(
            request.request.days_to_expire,
        ),
{
    kept_throughout(
        begun(request, world),
        replies,
        luck(),
        |s: Standing<CreateApiSessionToken, CreateSessionTokenResponse>|
            s.world == world && match s.outcome {
                Outcome::Ask(h) => h.request == request.request,
                Outcome::Done(Err(f)) => refused_beyond(request.request.days_to_expire, f)
                    && ends_beyond(request.request.days_to_expire),
                _ => true,
            },
    );
}

/// A text that is no active API token gets no session token, whatever the
/// services do. If none fails, it is refused as unauthorized.
pub proof fn inactive_token_is_refused(
    request: CreateApiSessionToken,
    world: World,
    replies: Seq<Reply>,
)
    requires
        request.stage is OpenDatabase,
        !world.has_active_token(request.request.api_token@),
        truthful(begun(request, world), replies),
    ensures
        match served(begun(request, world), replies).outcome {
            Outcome::Ask(_) => true,
            Outcome::Done(Err(_)) => true,
            _ => false,
        },
        lucky(begun(request, world), replies) ==> (served(
            begun(request, world),
            replies,
        ).outcome matches Outcome::Done(Err(f)) ==> f.status_code == 401),
{
    let kept = |s: Standing<CreateApiSessionToken, CreateSessionTokenResponse>, any: bool|
        s.world == world && match s.outcome {
            Outcome::Ask(h) => h.request == request.request && (h.stage is OpenDatabase
                || h.stage is FindToken),
            Outcome::Done(Err(f)) => any || f.status_code == 401,
            _ => false,
        };
    kept_throughout(
        begun(request, world),
        replies,
        truth(),
        |s: Standing<CreateApiSessionToken, CreateSessionTokenResponse>| kept(s, true),
    );
    if lucky(begun(request, world), replies) {
        kept_throughout(
            begun(request, world),
            replies,
            luck(),
            |s: Standing<CreateApiSessionToken, CreateSessionTokenResponse>| kept(s, false),
        );
    }
}

/// A deactivation that succeeds makes the token inactive and changes nothing else.
pub proof fn token_is_deactivated(request: DeactivateApiToken, world: World, replies: Seq<Reply>)
    requires
        request.stage is OpenDatabase,
        truthful(begun(request, world), replies),
    ensures
        served(begun(request, world), replies).outcome matches Outcome::Done(Ok(_)) ==> served(
            begun(request, world),
            replies,
        ).world == (World { tokens: deactivated(world.tokens, request.token_id), ..world }),
{
    kept_throughout(
        begun(request, world),
        replies,
        truth(),
        |s: Standing<DeactivateApiToken, Seq<char>>|
            match s.outcome {
                Outcome::Ask(h) => s.world == world && h.token_id == request.token_id,
                Outcome::Done(Ok(_)) => s.world == (World {
                    tokens: deactivated(world.tokens, request.token_id),
                    ..world
                }),
                _ => true,
            },
    );
}

/// The refusal to deactivate an API token that does not exist.
pub open spec fn token_unknown(id: i64) -> Failure {
    refusal(
        Status::NotFound,
        at("deactivate_api_token"@, "token id="@ + decimal(id as int) + " not found"@),
    )
}

/// The deactivation of an API token that exists succeeds, and that of one that does
/// not is answered with not found and changes nothing, unless a service fails.
pub proof fn known_token_alone_is_deactivated(
    request: DeactivateApiToken,
    world: World,
    replies: Seq<Reply>,
)
    requires
        request.stage is OpenDatabase,
        lucky(begun(request, world), replies),
    ensures
        match served(begun(request, world), replies).outcome {
            Outcome::Ask(_) => true,
            Outcome::Done(Ok(_)) => world.has_token(request.token_id),
            Outcome::Done(Err(f)) => {
                &&& !world.has_token(request.token_id)
                &&& f == token_unknown(request.token_id)
                &&& served(begun(request, world), replies).world == world
            },
        },
{
    assert forall|h: DeactivateApiToken, now: World, reply: Reply|
        deactivating(request, world, begun(h, now)) && #[trigger] luck()(
            now,
            h.asks(),
            reply,
        ) implies deactivating(
        request,
        world,
        Standing { outcome: h.next(reply), world: now.left_by(h.asks(), reply) },
    ) by {
        match (h.stage, reply) {
            (DeactivateApiTokenStage::FindToken, Reply::ApiToken(Ok(Some(token)))) => {
                assert(world.tokens.contains(token_row(token)));
            },
            _ => {},
        }
    }
    kept_throughout(
        begun(request, world),
        replies,
        luck(),
        |s: Standing<DeactivateApiToken, Seq<char>>| deactivating(request, world, s),
    );
}

/// How a deactivation stands on its way if no service fails.
spec fn deactivating(
    request: DeactivateApiToken,
    world: World,
    s: Standing<DeactivateApiToken, Seq<char>>,
) -> bool {
    match s.outcome {
        Outcome::Ask(h) => s.world == world && h.token_id == request.token_id && (
        h.stage is Store ==> world.has_token(request.token_id)),
        Outcome::Done(Ok(_)) => world.has_token(request.token_id),
        Outcome::Done(Err(f)) => s.world == world && !world.has_token(request.token_id) && f
            == token_unknown(request.token_id),
    }
}

proof fn deactivating_again_changes_nothing(tokens: Set<TokenRow>, id: i64)
    ensures
        deactivated(deactivated(tokens, id), id) == deactivated(tokens, id),
{
    let change = |t: TokenRow|
        if t.id == id {
            TokenRow { is_active: false, ..t }
        } else {
            t
        };
    let once = deactivated(tokens, id);
    let twice = deactivated(once, id);
    assert forall|t: TokenRow| once.contains(t) implies change(t) == t by {
        let first = choose|first: TokenRow| tokens.contains(first) && t == change(first);
        assert(tokens.contains(first) && t == change(first));
    }
    assert forall|t: TokenRow| twice.contains(t) <==> once.contains(t) by {
        if once.contains(t) {
            assert(change(t) == t);
        }
        if twice.contains(t) {
            let first = choose|first: TokenRow| once.contains(first) && t == change(first);
            assert(once.contains(first) && t == change(first));
        }
    }
    assert(twice =~= once);
}

/// A second deactivation changes nothing: once the deactivation of an API token has
/// succeeded, another one that succeeds leaves everything as it is.
pub proof fn second_deactivation_changes_nothing(
    request: DeactivateApiToken,
    world: World,
    replies: Seq<Reply>,
    again: DeactivateApiToken,
    later: Seq<Reply>,
)
    requires
        request.stage is OpenDatabase,
        again == request,
        truthful(begun(request, world), replies),
        served(begun(request, world), replies).outcome matches Outcome::Done(Ok(_)),
        truthful(begun(again, served(begun(request, world), replies).world), later),
        served(
            begun(again, served(begun(request, world), replies).world),
            later,
        ).outcome matches Outcome::Done(Ok(_)),
    ensures
        served(begun(again, served(begun(request, world), replies).world), later).world == served(
            begun(request, world),
            replies,
        ).world,
{
    token_is_deactivated(request, world, replies);
    token_is_deactivated(again, served(begun(request, world), replies).world, later);
    deactivating_again_changes_nothing(world.tokens, request.token_id);
}

/// A deactivated API token gets no session token any more: once the deactivation
/// of the only token with a text has succeeded, that text is refused, whatever
/// the services do.
pub proof fn deactivated_token_is_refused(
    deactivation: DeactivateApiToken,
    world: World,
    replies: Seq<Reply>,
    exchange: CreateApiSessionToken,
    later: Seq<Reply>,
)
    requires
        deactivation.stage is OpenDatabase,
        exchange.stage is OpenDatabase,
        forall|t: TokenRow| #[trigger]
            world.tokens.contains(t) && t.token == Some(exchange.request.api_token@) ==> t.id
                == deactivation.token_id,
        truthful(begun(deactivation, world), replies),
        served(begun(deactivation, world), replies).outcome matches Outcome::Done(Ok(_)),
        truthful(begun(exchange, served(begun(deactivation, world), replies).world), later),
    ensures
        !(served(
            begun(exchange, served(begun(deactivation, world), replies).world),
            later,
        ).outcome matches Outcome::Done(Ok(_))),
{
    let after = served(begun(deactivation, world), replies).world;
    token_is_deactivated(deactivation, world, replies);
    assert(!after.has_active_token(exchange.request.api_token@));
    inactive_token_is_refused(exchange, after, later);
}

/// What a session token for a developer says: they may write only if they own the
/// group.
pub open spec fn interactive_given(
    request: InteractiveSessionToken,
    world: World,
    answer: CreateSessionTokenResponse,
    group: GroupRow,
    expiration: i64,
) -> bool {
    &&& world.groups.contains(group)
    &&& group.identifier == request.group_identifier@
    &&& answer.group_identifier@ == group.identifier
    &&& exists|now: i64| #[trigger] shown(now) && expiration == seconds(now) + 36_000
    &&& FIRST_SECOND <= expiration <= LAST_SECOND
    &&& world.environment.contains_key("JWT_SECRET"@)
    &&& jwt_of_api_claims(
        group_claims(
            group,
            expiration,
            texts(request.groups_ownerships.0@).contains(request.group_identifier@),
        ),
        world.environment["JWT_SECRET"@],
    ) == Ok::<Seq<char>, Seq<char>>(answer.session_token@)
    &&& api_claims_of_jwt(answer.session_token@, world.environment["JWT_SECRET"@]) == Some(
        group_claims(
            group,
            expiration,
            texts(request.groups_ownerships.0@).contains(request.group_identifier@),
        ),
    )
}

/// How the making of a session token for a developer stands on its way.
spec fn giving_interactive(
    request: InteractiveSessionToken,
    world: World,
    s: Standing<InteractiveSessionToken, CreateSessionTokenResponse>,
) -> bool {
    let found = |group: GroupRow|
        world.groups.contains(group) && group.identifier == request.group_identifier@;
    let timely = |expiration: i64|
        FIRST_SECOND <= expiration <= LAST_SECOND && exists|now: i64| #[trigger]
            shown(now) && expiration == seconds(now) + 36_000;
    s.world == world && match s.outcome {
        Outcome::Ask(h) => h.group_identifier == request.group_identifier && h.groups_ownerships
            == request.groups_ownerships && match h.stage {
            InteractiveSessionTokenStage::OpenDatabase => true,
            InteractiveSessionTokenStage::FindGroup => true,
            InteractiveSessionTokenStage::Clock { group } => found(group_row(group)),
            InteractiveSessionTokenStage::Secret { group, expiration } => found(group_row(group))
                && timely(expiration),
            InteractiveSessionTokenStage::Sign { group, expiration, secret } => found(
                group_row(group),
            ) && timely(expiration) && world.environment.contains_pair("JWT_SECRET"@, secret@),
        },
        Outcome::Done(Ok(answer)) => exists|group: GroupRow, expiration: i64| #[trigger]
            interactive_given(request, world, answer, group, expiration),
        _ => true,
    }
}

/// A session token that a developer gets is one of the group that was named. It
/// holds for ten hours and may write only if the developer owns the group.
/// Nothing changes.
pub proof fn only_owners_may_write(
    request: InteractiveSessionToken,
    world: World,
    replies: Seq<Reply>,
)
    requires
        request.stage is OpenDatabase,
        truthful(begun(request, world), replies),
    ensures
        served(begun(request, world), replies).world == world,
        served(begun(request, world), replies).outcome matches Outcome::Done(Ok(answer))
            ==> exists|group: GroupRow, expiration: i64| #[trigger]
            interactive_given(request, world, answer, group, expiration),
{
    assert forall|h: InteractiveSessionToken, now: World, reply: Reply|
        giving_interactive(request, world, begun(h, now)) && #[trigger] truth()(
            now,
            h.asks(),
            reply,
        ) implies giving_interactive(
        request,
        world,
        Standing { outcome: h.next(reply), world: now.left_by(h.asks(), reply) },
    ) by {
        let s = Standing { outcome: h.next(reply), world: now.left_by(h.asks(), reply) };
        match (h.stage, reply) {
            (
                InteractiveSessionTokenStage::Sign { group, expiration, .. },
                Reply::Text(Ok(session_token)),
            ) => {
                let answer = CreateSessionTokenResponse {
                    session_token,
                    group_identifier: group.identifier,
                };
                assert(interactive_given(request, world, answer, group_row(group), expiration));
                assert(s.outcome matches Outcome::Done(Ok(a)) && a == answer);
                assert(giving_interactive(request, world, s));
            },
            _ => {},
        }
    }
    kept_throughout(
        begun(request, world),
        replies,
        truth(),
        |s: Standing<InteractiveSessionToken, CreateSessionTokenResponse>|
            giving_interactive(request, world, s),
    );
}

/// Whether a text is that of no API token.
pub open spec fn unused_text(world: World, text: Seq<char>) -> bool {
    forall|t: TokenRow| #[trigger] world.tokens.contains(t) ==> t.token != Some(text)
}

proof fn made_token_is_active(
    making: CreateApiToken,
    world: World,
    after: World,
    answer: CreateApiTokenResponse,
    group: GroupRow,
    secret: Seq<char>,
    expiration: i64,
    created_at: i64,
)
    requires
        token_stored(making, world, after, answer, group, secret, expiration, created_at),
        group_ids_are_unique(world),
        unused_text(world, answer.api_token@),
    ensures
        after.has_active_token(answer.api_token@),
        forall|t: TokenRow, g: GroupRow| #[trigger]
            after.active_token(t, g, answer.api_token@) ==> g == group,
        forall|t: TokenRow| #[trigger]
            after.tokens.contains(t) && t.token == Some(answer.api_token@) ==> t.id
                == new_token_id(world.tokens),
{
    let row = TokenRow {
        id: new_token_id(world.tokens),
        parent_id: group.id,
        expiry_date: (expiration as int / 86_400) as i64,
        created_at,
        is_active: true,
        name: making.request.name@,
        token: Some(answer.api_token@),
    };
    assert(after.tokens.contains(row));
    assert(after.active_token(row, group, answer.api_token@));
    assert forall|t: TokenRow| #[trigger]
        after.tokens.contains(t) && t.token == Some(answer.api_token@) implies t == row by {
        if t != row {
            assert(world.tokens.contains(t));
        }
    }
}

/// An API token that was just made is good for a session token of its group: its
/// exchange is answered with the group that was named, unless a service fails or
/// the session would end beyond the calendar.
pub proof fn made_token_is_exchanged(
    making: CreateApiToken,
    world: World,
    replies: Seq<Reply>,
    exchange: CreateApiSessionToken,
    later: Seq<Reply>,
)
    requires
        making.stage is OpenDatabase,
        exchange.stage is OpenDatabase,
        truthful(begun(making, world), replies),
        served(begun(making, world), replies).outcome matches Outcome::Done(Ok(answer))
            && exchange.request.api_token@ == answer.api_token@,
        unused_text(world, exchange.request.api_token@),
        group_ids_are_unique(world),
        lucky(begun(exchange, served(begun(making, world), replies).world), later),
    ensures
        match served(begun(exchange, served(begun(making, world), replies).world), later).outcome {
            Outcome::Ask(_) => true,
            Outcome::Done(Ok(session)) => session.group_identifier@
                == making.request.group_identifier@,
            Outcome::Done(Err(f)) => refused_beyond(exchange.request.days_to_expire, f)
                && ends_beyond(exchange.request.days_to_expire),
        },
{
    let after = served(begun(making, world), replies).world;
    let answer = served(begun(making, world), replies).outcome->Done_0->Ok_0;
    api_token_is_stored(making, world, replies);
    let (group, secret, expiration, created_at) = choose|
        group: GroupRow,
        secret: Seq<char>,
        expiration: i64,
        created_at: i64,
    | #[trigger]
        token_stored(making, world, after, answer, group, secret, expiration, created_at);
    made_token_is_active(making, world, after, answer, group, secret, expiration, created_at);
    lucky_is_truthful(begun(exchange, after), later);
    active_token_is_exchanged(exchange, after, later);
    active_token_is_not_refused(exchange, after, later);
    match served(begun(exchange, after), later).outcome {
        Outcome::Done(Ok(session)) => {
            let (token, owner, end) = choose|token: TokenRow, owner: GroupRow, end: i64| #[trigger]
                session_given(exchange, after, session, token, owner, end);
            assert(after.active_token(token, owner, answer.api_token@));
        },
        _ => {},
    }
}

/// An API token lives until it is deactivated: once it was made, and the row that
/// it was stored in was deactivated, its exchange is refused as unauthorized,
/// unless a service fails.
pub proof fn made_token_is_refused_once_deactivated(
    making: CreateApiToken,
    world: World,
    replies: Seq<Reply>,
    deactivation: DeactivateApiToken,
    more: Seq<Reply>,
    exchange: CreateApiSessionToken,
    later: Seq<Reply>,
)
    requires
        making.stage is OpenDatabase,
        deactivation.stage is OpenDatabase,
        exchange.stage is OpenDatabase,
        deactivation.token_id == new_token_id(world.tokens),
        truthful(begun(making, world), replies),
        served(begun(making, world), replies).outcome matches Outcome::Done(Ok(answer))
            && exchange.request.api_token@ == answer.api_token@,
        unused_text(world, exchange.request.api_token@),
        group_ids_are_unique(world),
        truthful(begun(deactivation, served(begun(making, world), replies).world), more),
        served(
            begun(deactivation, served(begun(making, world), replies).world),
            more,
        ).outcome matches Outcome::Done(Ok(_)),
        lucky(
            begun(
                exchange,
                served(
                    begun(deactivation, served(begun(making, world), replies).world),
                    more,
                ).world,
            ),
            later,
        ),
    ensures
        match served(
            begun(
                exchange,
                served(
                    begun(deactivation, served(begun(making, world), replies).world),
                    more,
                ).world,
            ),
            later,
        ).outcome {
            Outcome::Ask(_) => true,
            Outcome::Done(Err(f)) => f.status_code == 401,
            Outcome::Done(Ok(_)) => false,
        },
{
    let made = served(begun(making, world), replies).world;
    let after = served(begun(deactivation, made), more).world;
    let answer = served(begun(making, world), replies).outcome->Done_0->Ok_0;
    api_token_is_stored(making, world, replies);
    let (group, secret, expiration, created_at) = choose|
        group: GroupRow,
        secret: Seq<char>,
        expiration: i64,
        created_at: i64,
    | #[trigger]
        token_stored(making, world, made, answer, group, secret, expiration, created_at);
    made_token_is_active(making, world, made, answer, group, secret, expiration, created_at);
    token_is_deactivated(deactivation, made, more);
    assert(!after.has_active_token(exchange.request.api_token@));
    lucky_is_truthful(begun(exchange, after), later);
    inactive_token_is_refused(exchange, after, later);
}

/// An exchange is refused as unauthorized if and only if the text is that of no
/// active API token of an existing group, unless a service fails.
pub proof fn inactive_token_alone_is_unauthorized(
    request: CreateApiSessionToken,
    world: World,
    replies: Seq<Reply>,
)
    requires
        request.stage is OpenDatabase,
        world.environment.contains_key("JWT_SECRET"@),
        lucky(begun(request, world), replies),
        served(begun(request, world), replies).outcome is Done,
    ensures
        served(begun(request, world), replies).outcome matches Outcome::Done(Err(f))
            && f.status_code == 401 <==> !world.has_active_token(request.request.api_token@),
{
    if world.has_active_token(request.request.api_token@) {
        active_token_is_not_refused(request, world, replies);
    } else {
        lucky_is_truthful(begun(request, world), replies);
        inactive_token_is_refused(request, world, replies);
    }
}

/// Whether a list tells of some API tokens, one by one and in order: all of each but
/// its group and its text.
pub open spec fn tells_each(tokens: Seq<ApiToken>, list: Seq<GroupApiTokenResponse>) -> bool {
    &&& list.len() == tokens.len()
    &&& forall|i: int| 0 <= i < list.len() ==> tells_token(tokens[i], #[trigger] list[i])
}

/// Whether an API token is told as it is stored.
pub open spec fn tells_token(token: ApiToken, told: GroupApiTokenResponse) -> bool {
    &&& told.pk == token.id
    &&& told.name == token.name
    &&& told.is_active == token.is_active
    &&& told.created_at == token.created_at
    &&& told.expiry_date == token.expiry_date
}

/// Whether a list tells of exactly the API tokens of a group, in the order of the
/// store.
pub open spec fn tells_tokens(
    world: World,
    group: i64,
    list: Seq<GroupApiTokenResponse>,
) -> bool {
    exists|tokens: Seq<ApiToken>| #[trigger]
        world.has_tokens(group, tokens) && tells_each(tokens, list)
}

/// The API tokens that are told are those of the group that was named. Nothing
/// changes.
pub proof fn tokens_of_group_are_told(request: GetApiTokens, world: World, replies: Seq<Reply>)
    requires
        request.stage is OpenDatabase,
        truthful(begun(request, world), replies),
    ensures
        served(begun(request, world), replies).world == world,
        served(begun(request, world), replies).outcome matches Outcome::Done(Ok(list))
            ==> exists|g: GroupRow| #[trigger]
            world.groups.contains(g) && g.identifier == request.group_identifier@ && tells_tokens(
                world,
                g.id,
                list,
            ),
{
    assert forall|h: GetApiTokens, now: World, reply: Reply|
        telling_tokens(request, world, begun(h, now)) && #[trigger] truth()(
            now,
            h.asks(),
            reply,
        ) implies telling_tokens(
        request,
        world,
        Standing { outcome: h.next(reply), world: now.left_by(h.asks(), reply) },
    ) by {
        match (h.stage, reply) {
            (GetApiTokensStage::Load { group }, Reply::ApiTokens(Ok(tokens))) => {
                assert(world.groups.contains(group_row(group)));
                assert(world.has_tokens(group.id, tokens@));
                assert(tells_each(tokens@, tokens_info(tokens@)));
                assert(tells_tokens(world, group_row(group).id, tokens_info(tokens@)));
            },
            _ => {},
        }
    }
    kept_throughout(
        begun(request, world),
        replies,
        truth(),
        |s: Standing<GetApiTokens, Seq<GroupApiTokenResponse>>| telling_tokens(request, world, s),
    );
}

/// How a question for the API tokens of a group stands on its way.
spec fn telling_tokens(
    request: GetApiTokens,
    world: World,
    s: Standing<GetApiTokens, Seq<GroupApiTokenResponse>>,
) -> bool {
    s.world == world && match s.outcome {
        Outcome::Ask(h) => h.group_identifier == request.group_identifier && match h.stage {
            GetApiTokensStage::Load { group } => world.groups.contains(group_row(group))
                && group.identifier@ == request.group_identifier@,
            _ => true,
        },
        Outcome::Done(Ok(list)) => exists|g: GroupRow| #[trigger]
            world.groups.contains(g) && g.identifier == request.group_identifier@ && tells_tokens(
                world,
                g.id,
                list,
            ),
        _ => true,
    }
}

/// An API token that was asked for says the same of its maker as the token that they
/// showed, but that it is an API token and when it expires: so many days of 86400
/// seconds after it was made as were asked for.
pub proof fn api_token_says_who_made_it(
    asked: CreateApiTokenRequest,
    claims: Claims,
    request: CreateApiToken,
    world: World,
    replies: Seq<Reply>,
)
    requires
        call_ensures(create_api_token, (asked, claims), request),
        truthful(begun(request, world), replies),
    ensures
        served(begun(request, world), replies).outcome matches Outcome::Done(Ok(answer))
            ==> exists|now: i64, secret: Seq<char>| #[trigger]
            shown(now) && #[trigger] world.environment.contains_pair("JWT_SECRET"@, secret)
                && claims_of_jwt(answer.api_token@, secret) == Some(
                ClaimsView {
                    token_type: "api"@,
                    exp: (seconds(now) + asked.days_to_expire * 86_400) as usize,
                    ..claims@
                },
            ),
{
    api_token_is_stored(request, world, replies);
    match served(begun(request, world), replies).outcome {
        Outcome::Done(Ok(answer)) => {
            let (group, secret, expiration, created_at) = choose|
                group: GroupRow,
                secret: Seq<char>,
                expiration: i64,
                created_at: i64,
            | #[trigger]
                token_stored(
                    request,
                    world,
                    served(begun(request, world), replies).world,
                    answer,
                    group,
                    secret,
                    expiration,
                    created_at,
                );
            let now = choose|now: i64| #[trigger]
                shown(now) && expiration == seconds(now) + asked.days_to_expire * 86_400;
            assert(shown(now) && world.environment.contains_pair("JWT_SECRET"@, secret));
        },
        _ => {},
    }
}

/// What an API token says of its maker is what their own token says of them.
pub proof fn api_token_is_of_its_maker(claims: Claims, expiration: i64, r: Claims)
    requires
        call_ensures(claim_api_token, (&claims, expiration), r),
    ensures
        r.sub@ == claims.sub@,
        r.user_id@ == claims.user_id@,
        r.exp == expiration as usize,
        r.token_type@ == "api"@,
        maybe_text(r.first_name) == maybe_text(claims.first_name),
        maybe_text(r.last_name) == maybe_text(claims.last_name),
        maybe_text(r.middle_name) == maybe_text(claims.middle_name),
        maybe_text(r.client_id) == maybe_text(claims.client_id),
{
    assert(r@.sub == claims@.sub);
}

/// A session token that an API token was exchanged for ends so many days of 86400
/// seconds after it was given as were asked for, and 1200 seconds after it was given
/// if nothing was asked for.
pub proof fn session_ends_as_asked(
    asked: CreateSessionTokenRequest,
    request: CreateApiSessionToken,
    world: World,
    replies: Seq<Reply>,
)
    requires
        call_ensures(create_api_session_token, (asked,), request),
        truthful(begun(request, world), replies),
    ensures
        served(begun(request, world), replies).outcome matches Outcome::Done(Ok(answer))
            ==> exists|now: i64| #[trigger]
            shown(now) && (api_claims_of_jwt(
                answer.session_token@,
                world.environment["JWT_SECRET"@],
            ) matches Some(claims) && claims.exp == (match asked.days_to_expire {
                Some(days) => seconds(now) + days * 86_400,
                None => seconds(now) + 1_200,
            }) as usize),
{
    active_token_is_exchanged(request, world, replies);
    match served(begun(request, world), replies).outcome {
        Outcome::Done(Ok(answer)) => {
            let (token, group, expiration) = choose|
                token: TokenRow,
                group: GroupRow,
                expiration: i64,
            | #[trigger]
                session_given(request, world, answer, token, group, expiration);
            let now = choose|now: i64| #[trigger]
                shown(now) && expiration == session_end(now, asked.days_to_expire);
            assert(shown(now));
        },
        _ => {},
    }
}

/// What a session token says is of its group, and that it may write only if it may.
pub proof fn session_token_is_of_its_group(
    group: GroupRow,
    identifier: &str,
    expiration: i64,
    may_write: bool,
    r: APIClaims,
)
    requires
        identifier@ == group.identifier,
        call_ensures(claim_session, (identifier, expiration, group.id, may_write), r),
    ensures
        r@ == group_claims(group, expiration, may_write),
        r@.scopes.contains("read"@),
        r@.scopes.contains("write"@) <==> may_write,
{
    reveal_strlit("read");
    reveal_strlit("write");
    assert("read"@.len() != "write"@.len());
    assert(r@.scopes[0] == "read"@);
    if may_write {
        assert(r@.scopes[1] == "write"@);
    }
}

/// Whether a token of some days can be made at every time.
pub open spec fn within_calendar(days_to_expire: i64) -> bool {
    forall|now: i64| #[trigger]
        shown(now) ==> FIRST_SECOND <= seconds(now) + days_to_expire * 86_400 <= LAST_SECOND
}

/// An API token that expires within the calendar is made for a group that exists.
/// For one that does not exist, none is made: it is not found, and nothing changes.
/// A service that fails is the only exception.
pub proof fn token_is_made_for_known_group_alone(
    asked: CreateApiTokenRequest,
    claims: Claims,
    request: CreateApiToken,
    world: World,
    replies: Seq<Reply>,
)
    requires
        call_ensures(create_api_token, (asked, claims), request),
        within_calendar(asked.days_to_expire),
        world.environment.contains_key("JWT_SECRET"@),
        lucky(begun(request, world), replies),
    ensures
        match served(begun(request, world), replies).outcome {
            Outcome::Ask(_) => true,
            Outcome::Done(Ok(_)) => world.has_group(GroupKey::Identifier(asked.group_identifier)),
            Outcome::Done(Err(f)) => {
                &&& !world.has_group(GroupKey::Identifier(asked.group_identifier))
                &&& f.status_code == 404
                &&& served(begun(request, world), replies).world == world
            },
        },
{
    let known = world.has_group(GroupKey::Identifier(asked.group_identifier));
    let kept = |s: Standing<CreateApiToken, CreateApiTokenResponse>|
        match s.outcome {
            Outcome::Ask(h) => s.world == world && h.request == asked && match h.stage {
                CreateApiTokenStage::Created { .. }
                | CreateApiTokenStage::Updated { .. }
                | CreateApiTokenStage::Insert { .. } => known,
                _ => true,
            },
            Outcome::Done(Ok(_)) => known,
            Outcome::Done(Err(f)) => !known && f.status_code == 404 && s.world == world,
        };
    assert forall|h: CreateApiToken, now: World, reply: Reply|
        kept(begun(h, now)) && #[trigger] luck()(now, h.asks(), reply) implies kept(
        Standing { outcome: h.next(reply), world: now.left_by(h.asks(), reply) },
    ) by {
        match (h.stage, reply) {
            (CreateApiTokenStage::FindGroup { .. }, Reply::Group(Ok(group))) => {
                assert(world.groups.contains(group_row(group)));
            },
            _ => {},
        }
    }
    kept_throughout(begun(request, world), replies, luck(), kept);
}

/// A session token for a developer is given for a group that exists. One that does
/// not exist is not found. A service that fails, and a clock within ten hours of the
/// end of the calendar, are the only exceptions.
pub proof fn developer_gets_session_of_known_group_alone(
    claims: Claims,
    group_identifier: String,
    groups_ownerships: GroupOwnerships,
    request: InteractiveSessionToken,
    world: World,
    replies: Seq<Reply>,
)
    requires
        call_ensures(
            create_api_session_token_interactive,
            (claims, group_identifier, groups_ownerships),
            request,
        ),
        world.environment.contains_key("JWT_SECRET"@),
        lucky(begun(request, world), replies),
    ensures
        request.group_identifier == group_identifier,
        request.groups_ownerships == groups_ownerships,
        request.stage is OpenDatabase,
        match served(begun(request, world), replies).outcome {
            Outcome::Ask(_) => true,
            Outcome::Done(Ok(_)) => world.has_group(GroupKey::Identifier(group_identifier)),
            Outcome::Done(Err(f)) => {
                ||| !world.has_group(GroupKey::Identifier(group_identifier)) && f.status_code
                    == 404
                ||| world.has_group(GroupKey::Identifier(group_identifier)) && f.status_code == 500
                    && exists|now: i64| #[trigger]
                    shown(now) && seconds(now) + 36_000 > LAST_SECOND
            },
        },
{
    let known = world.has_group(GroupKey::Identifier(group_identifier));
    let late = exists|now: i64| #[trigger] shown(now) && seconds(now) + 36_000 > LAST_SECOND;
    let kept = |s: Standing<InteractiveSessionToken, CreateSessionTokenResponse>|
        s.world == world && match s.outcome {
            Outcome::Ask(h) => h.group_identifier == group_identifier && match h.stage {
                InteractiveSessionTokenStage::OpenDatabase
                | InteractiveSessionTokenStage::FindGroup => true,
                _ => known,
            },
            Outcome::Done(Ok(_)) => known,
            Outcome::Done(Err(f)) => (!known && f.status_code == 404) || (known && late
                && f.status_code == 500),
        };
    assert forall|h: InteractiveSessionToken, now: World, reply: Reply|
        kept(begun(h, now)) && #[trigger] luck()(now, h.asks(), reply) implies kept(
        Standing { outcome: h.next(reply), world: now.left_by(h.asks(), reply) },
    ) by {
        match (h.stage, reply) {
            (InteractiveSessionTokenStage::FindGroup, Reply::MaybeGroup(Ok(Some(group)))) => {
                assert(world.groups.contains(group_row(group)));
            },
            _ => {},
        }
    }
    kept_throughout(begun(request, world), replies, luck(), kept);
}

/// The API tokens of a group that exists are told. A group that does not exist is not
/// found. A service that fails is the only exception.
pub proof fn tokens_of_known_group_alone_are_told(
    group_identifier: String,
    request: GetApiTokens,
    world: World,
    replies: Seq<Reply>,
)
    requires
        call_ensures(get_api_tokens_by_group, (group_identifier,), request),
        lucky(begun(request, world), replies),
    ensures
        request.group_identifier == group_identifier,
        request.stage is OpenDatabase,
        match served(begun(request, world), replies).outcome {
            Outcome::Ask(_) => true,
            Outcome::Done(Ok(_)) => world.has_group(GroupKey::Identifier(group_identifier)),
            Outcome::Done(Err(f)) => !world.has_group(GroupKey::Identifier(group_identifier))
                && f.status_code == 404,
        },
{
    let known = world.has_group(GroupKey::Identifier(group_identifier));
    let kept = |s: Standing<GetApiTokens, Seq<GroupApiTokenResponse>>|
        s.world == world && match s.outcome {
            Outcome::Ask(h) => h.group_identifier == group_identifier && (h.stage is Load
                ==> known),
            Outcome::Done(Ok(_)) => known,
            Outcome::Done(Err(f)) => !known && f.status_code == 404,
        };
    assert forall|h: GetApiTokens, now: World, reply: Reply|
        kept(begun(h, now)) && #[trigger] luck()(now, h.asks(), reply) implies kept(
        Standing { outcome: h.next(reply), world: now.left_by(h.asks(), reply) },
    ) by {
        match (h.stage, reply) {
            (GetApiTokensStage::FindGroup, Reply::MaybeGroup(Ok(Some(group)))) => {
                assert(world.groups.contains(group_row(group)));
            },
            _ => {},
        }
    }
    kept_throughout(begun(request, world), replies, luck(), kept);
}

/// A deactivation is of the token with the id that was given, and says so.
pub proof fn deactivation_names_its_token(
    token_id: i64,
    request: DeactivateApiToken,
    world: World,
    replies: Seq<Reply>,
)
    requires
        call_ensures(deactivate_api_token, (token_id,), request),
        truthful(begun(request, world), replies),
    ensures
        served(begun(request, world), replies).outcome matches Outcome::Done(Ok(message)) ==> {
            &&& message == "API token with id '"@ + decimal(token_id as int)
                + "' has been deactivated"@
            &&& forall|t: TokenRow| #[trigger]
                served(begun(request, world), replies).world.tokens.contains(t) && t.id == token_id
                    ==> !t.is_active
            &&& forall|t: TokenRow|
                t.id != token_id ==> (#[trigger] served(
                    begun(request, world),
                    replies,
                ).world.tokens.contains(t) <==> world.tokens.contains(t))
        },
{
    kept_throughout(
        begun(request, world),
        replies,
        truth(),
        |s: Standing<DeactivateApiToken, Seq<char>>|
            match s.outcome {
                Outcome::Ask(h) => h.token_id == token_id,
                Outcome::Done(Ok(message)) => message == "API token with id '"@ + decimal(
                    token_id as int,
                ) + "' has been deactivated"@,
                _ => true,
            },
    );
    token_is_deactivated(request, world, replies);
    let after = deactivated(world.tokens, token_id);
    let change = |t: TokenRow|
        if t.id == token_id {
            TokenRow { is_active: false, ..t }
        } else {
            t
        };
    assert forall|t: TokenRow| t.id != token_id implies (#[trigger] after.contains(t)
        <==> world.tokens.contains(t)) by {
        if world.tokens.contains(t) {
            assert(change(t) == t);
            assert(after.contains(change(t)));
        }
    }
}

/// An API token is stored with the times that the clock showed on the way.
pub proof fn api_tokens_are_dated(request: CreateApiToken, world: World, replies: Seq<Reply>)
    requires
        request.stage is OpenDatabase,
        truthful(begun(request, world), replies),
    ensures
        served(begun(request, world), replies).outcome matches Outcome::Ask(h) ==> (
        h.asks() matches NeedView::Query(QueryView::InsertApiToken(token)) ==> shown(
            token.created_at,
        ) && shown(token.updated_at)),
{
    kept_throughout(
        begun(request, world),
        replies,
        truth(),
        |s: Standing<CreateApiToken, CreateApiTokenResponse>|
            s.outcome matches Outcome::Ask(h) ==> match h.stage {
                CreateApiTokenStage::Updated { created_at, .. } => shown(created_at),
                CreateApiTokenStage::Insert { created_at, updated_at, .. } => shown(created_at)
                    && shown(updated_at),
                _ => true,
            },
    );
}

/// API tokens are told one by one, each as it is stored, in the order of the store.
pub proof fn listed_tokens_are_told(
    request: GetApiTokens,
    group: Group,
    tokens: Vec<ApiToken>,
    r: Vec<GroupApiTokenResponse>,
)
    requires
        request.stage == (GetApiTokensStage::Load { group }),
        call_ensures(list_tokens, (&tokens,), r),
    ensures
        tells_each(tokens@, r@),
        request.next(Reply::ApiTokens(Ok(tokens))) == Outcome::<
            GetApiTokens,
            Seq<GroupApiTokenResponse>,
        >::Done(Ok(r@)),
{
}

} // verus!
