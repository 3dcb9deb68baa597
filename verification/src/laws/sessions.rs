//! Laws of sessions: who gets tokens, what the tokens say, and when they are
//! refused.

use crate::error::{at, refusal, ApiError, Failure, Status};
use crate::laws::accounts::{
    awaits_confirmation, changed_password_is_taken, confirmed_account, new_password_is_taken,
    pending_registration_is_confirmed, takes,
};
use crate::laws::apps::{
    access_is_settled, client_id_is_unique, found_with_group, groups_given, may_enter, open_door,
};
use crate::models::{
    Claims, ClaimsView, GroupMemberships, IAMLoginResponse, LoginRequest, LoginResponse,
    LogoutRequest, RefreshTokenResponse, User,
};
use crate::outside::clock::{clocked, seconds, shown};
use crate::outside::json::{json_of, list_of_json, reads_as, JsonView};
use crate::outside::jwt::{claims_of_jwt, jwt_of_claims};
use crate::outside::passwords::accepts;
use crate::outside::std_text::text_debug;
use crate::protocol::{answered, Handler, NeedView, Outcome, QueryView, Reply, TaskView};
use crate::routes::account::{ChangePassword, RegistrationConfirmation};
use crate::routes::apps::{known, AppAccess, AppAccessStage};
use crate::routes::sessions::{
    clear_redis, generate_app_tokens, login, logout, written, ClearRedis, ClearRedisStage,
    GenerateAppTokens, GenerateAppTokensStage, Login, LoginStage, Logout, RefreshToken,
    RefreshTokenStage,
};
use crate::text::{decimal, maybe_text, texts};
use crate::tokens::{
    create_jwt, create_jwt_at, holder_order, lifetime, ordered_claims, settled_text, token_made,
    user_order,
};
use crate::world::{
    account_of, app_row, begun, kept_throughout, luck, lucky, lucky_is_truthful, new_user_id,
    rehashed, served, truth, truthful, with_hash, Account, AppRow, Standing, World,
};
use vstd::prelude::*;

verus! {

/// For how many seconds an access token and a refresh token hold.
pub open spec fn token_life(token_type: Seq<char>) -> int {
    if token_type == "access"@ {
        900
    } else {
        36_000
    }
}

/// What is cached under a refresh token: the id of the user and, if it is one for an
/// application, its client id.
pub open spec fn cached_session(user_id: JsonView, app_id: Option<Seq<char>>) -> Seq<char> {
    match app_id {
        None => json_of(map!["user_id"@ => user_id]),
        Some(app_id) => json_of(
            map!["user_id"@ => user_id, "app_id"@ => JsonView::Text(app_id)],
        ),
    }
}

/// What a token of a type says that is made for an account at a time.
pub open spec fn account_claims(
    account: Account,
    token_type: Seq<char>,
    client_id: Option<Seq<char>>,
    now: i64,
    lifetime: int,
) -> ClaimsView {
    ClaimsView {
        sub: account.email,
        exp: (seconds(now) + lifetime) as usize,
        user_id: decimal(account.id as int),
        token_type,
        first_name: account.first_name,
        last_name: account.last_name,
        middle_name: account.middle_name,
        client_id,
    }
}

/// Whether a token is one of a type for an account, made at some time.
pub open spec fn token_for(
    token: Seq<char>,
    secret: Seq<char>,
    account: Account,
    token_type: Seq<char>,
    client_id: Option<Seq<char>>,
) -> bool {
    (token_type == "access"@ || token_type == "refresh"@) && exists|now: i64| #[trigger]
        shown(now) && claims_of_jwt(token, secret) == Some(
            account_claims(account, token_type, client_id, now, token_life(token_type)),
        )
}

/// Whether a pair is an access and a refresh token for an account.
pub open spec fn pair_for(
    tokens: LoginResponse,
    secret: Seq<char>,
    account: Account,
    client_id: Option<Seq<char>>,
) -> bool {
    &&& token_for(tokens.access_token@, secret, account, "access"@, client_id)
    &&& token_for(tokens.refresh_token@, secret, account, "refresh"@, client_id)
}

/// The key under which the groups of a user are cached.
pub open spec fn groups_key(user: i64) -> Seq<char> {
    "user_groups:"@ + decimal(user as int)
}

/// Whether a login may take some groups for those of a user: those of the
/// database, those that are cached, or none if the cache was of no help.
pub open spec fn seen_groups(world: World, user: i64, groups: Seq<Seq<char>>) -> bool {
    ||| world.has_groups(user, groups)
    ||| world.cache.contains_key(groups_key(user))
        && reads_as(world.cache[groups_key(user)], groups)
    ||| groups.len() == 0
}

/// What a login has left and answered at the end.
pub open spec fn signed_in(
    login: Login,
    before: World,
    after: World,
    answer: IAMLoginResponse,
    account: Account,
    secret: Seq<char>,
) -> bool {
    let request = login.request;
    let iam = answer.iam_tokens;
    &&& before.users.contains(account)
    &&& takes(account, request.email@, request.password@)
    &&& before.environment.contains_pair("JWT_SECRET"@, secret)
    &&& pair_for(iam, secret, account, None)
    &&& after == World { cache: after.cache, ..before }
    &&& after.cache.contains_pair(iam.refresh_token@, cached_session(JsonView::Number(account.id as int), None))
    &&& match (request.client_id, answer.app_tokens) {
        (None, None) => true,
        (Some(app_id), Some(tokens)) => {
            &&& pair_for(tokens, secret, account, Some(app_id@))
            &&& after.cache.contains_pair(
                tokens.refresh_token@,
                cached_session(JsonView::Number(account.id as int), Some(app_id@)),
            )
            &&& exists|groups: Seq<Seq<char>>| #[trigger]
                seen_groups(before, account.id, groups) && before.open_to(app_id@, groups)
        },
        _ => false,
    }
}

/// Whether an account is the one that signs in.
spec fn known_user(login: Login, before: World, user: User) -> bool {
    before.users.contains(account_of(user)) && takes(
        account_of(user),
        login.request.email@,
        login.request.password@,
    )
}

/// Whether a secret is that of the environment, if there is one.
spec fn known_secret(before: World, secret: Result<String, String>) -> bool {
    secret matches Ok(s) ==> before.environment.contains_pair("JWT_SECRET"@, s@)
}

/// Whether the question for access to an application has come up for a user.
spec fn access_asked(login: Login, before: World, user: User, access: AppAccess) -> bool {
    &&& login.request.client_id == Some(access.app_id)
    &&& seen_groups(before, user.id, known(access.user_groups))
    &&& access.stage is MatchGroups ==> before.has_enabled_app(access.app_id@)
}

/// Whether a pair of tokens for the application that a login names was made.
spec fn app_done(
    login: Login,
    before: World,
    now: World,
    user: User,
    secret: Result<String, String>,
    app_tokens: Option<LoginResponse>,
) -> bool {
    match (login.request.client_id, app_tokens) {
        (None, None) => true,
        (Some(app_id), Some(tokens)) => {
            &&& secret is Ok
            &&& pair_for(tokens, secret->Ok_0@, account_of(user), Some(app_id@))
            &&& now.cache.contains_pair(
                tokens.refresh_token@,
                cached_session(JsonView::Number(user.id as int), Some(app_id@)),
            )
            &&& exists|groups: Seq<Seq<char>>| #[trigger]
                seen_groups(before, user.id, groups) && before.open_to(app_id@, groups)
        },
        _ => false,
    }
}

/// How a login stands on its way.
spec fn signing_in(login: Login, before: World, s: Standing<Login, IAMLoginResponse>) -> bool {
    let request = login.request;
    let cached = s.world == (World { cache: s.world.cache, ..before });
    match s.outcome {
        Outcome::Ask(h) => {
            &&& h.request == request
            &&& cached
            &&& match h.stage {
                LoginStage::OpenDatabase => s.world == before,
                LoginStage::OpenCache => s.world == before,
                LoginStage::FindUser => s.world == before,
                LoginStage::Verify { user, hash } => s.world == before && before.users.contains(
                    account_of(user),
                ) && user.email_id@ == request.email@ && user.password_hash == Some(hash),
                LoginStage::CachedGroups { user } => s.world == before && known_user(
                    login,
                    before,
                    user,
                ),
                LoginStage::ReadGroups { user, json } => known_user(login, before, user)
                    && before.cache.contains_pair(groups_key(user.id), json@),
                LoginStage::LoadGroups { user } => known_user(login, before, user),
                LoginStage::WriteGroups { user, groups } => known_user(login, before, user)
                    && before.has_groups(user.id, texts(groups@)),
                LoginStage::CacheGroups { user, groups, .. } => known_user(login, before, user)
                    && before.has_groups(user.id, texts(groups@)),
                LoginStage::Access { user, access } => known_user(login, before, user)
                    && access_asked(login, before, user, access),
                LoginStage::AppSecret { user, app_id } => known_user(login, before, user)
                    && request.client_id == Some(app_id) && exists|groups: Seq<Seq<char>>|
                    #[trigger]
                    seen_groups(before, user.id, groups) && before.open_to(app_id@, groups),
                LoginStage::AppAccessToken { user, app_id, secret } => known_user(
                    login,
                    before,
                    user,
                ) && known_secret(before, secret) && request.client_id == Some(app_id) && exists|
                    groups: Seq<Seq<char>>,
                | #[trigger]
                    seen_groups(before, user.id, groups) && before.open_to(app_id@, groups),
                LoginStage::AppRefreshToken { user, app_id, secret, access_token } => known_user(
                    login,
                    before,
                    user,
                ) && known_secret(before, secret) && request.client_id == Some(app_id) && exists|
                    groups: Seq<Seq<char>>,
                | #[trigger]
                    seen_groups(before, user.id, groups) && before.open_to(app_id@, groups)
                    && secret is Ok && token_for(
                    access_token@,
                    secret->Ok_0@,
                    account_of(user),
                    "access"@,
                    Some(app_id@),
                ),
                LoginStage::AppSession { user, app_id, secret, access_token, refresh_token } => {
                    &&& known_user(login, before, user)
                    &&& known_secret(before, secret)
                    &&& request.client_id == Some(app_id)
                    &&& exists|groups: Seq<Seq<char>>| #[trigger]
                        seen_groups(before, user.id, groups) && before.open_to(app_id@, groups)
                    &&& secret is Ok
                    &&& pair_for(
                        LoginResponse { access_token, refresh_token },
                        secret->Ok_0@,
                        account_of(user),
                        Some(app_id@),
                    )
                },
                LoginStage::Secret { user } => known_user(login, before, user)
                    && request.client_id is None,
                LoginStage::AccessToken { user, secret, app_tokens } => known_user(
                    login,
                    before,
                    user,
                ) && known_secret(before, secret) && app_done(
                    login,
                    before,
                    s.world,
                    user,
                    secret,
                    app_tokens,
                ),
                LoginStage::RefreshToken { user, secret, app_tokens, access_token } => known_user(
                    login,
                    before,
                    user,
                ) && known_secret(before, secret) && app_done(
                    login,
                    before,
                    s.world,
                    user,
                    secret,
                    app_tokens,
                ) && secret is Ok && token_for(
                    access_token@,
                    secret->Ok_0@,
                    account_of(user),
                    "access"@,
                    None,
                ),
                LoginStage::Session { user, app_tokens, access_token, refresh_token } => {
                    &&& known_user(login, before, user)
                    &&& exists|secret: String| #[trigger]
                        app_done(login, before, s.world, user, Ok(secret), app_tokens)
                            && before.environment.contains_pair("JWT_SECRET"@, secret@) && pair_for(
                            LoginResponse { access_token, refresh_token },
                            secret@,
                            account_of(user),
                            None,
                        )
                },
            }
        },
        Outcome::Done(Ok(answer)) => exists|account: Account, secret: Seq<char>| #[trigger]
            signed_in(login, before, s.world, answer, account, secret),
        _ => true,
    }
}

/// A token that was ordered for a user is one for their account.
proof fn ordered_token_is_for_user(
    user: User,
    token_type: Seq<char>,
    client_id: Option<Seq<char>>,
    secret: Result<String, String>,
    reply: Reply,
)
    requires
        token_type == "access"@ || token_type == "refresh"@,
        answered(
            TaskView::CreateJwt(user_order(user, token_type, client_id, secret)),
            reply,
        ),
    ensures
        reply matches Reply::Token(Ok(token)) ==> secret is Ok && token_for(
            token@,
            secret->Ok_0@,
            account_of(user),
            token_type,
            client_id,
        ),
{
    let order = user_order(user, token_type, client_id, secret);
    match reply {
        Reply::Token(Ok(token)) => {
            let now = choose|now: i64|
                #![trigger shown(now)]
                shown(now) && token_made(order, now, settled_text(Ok(token)));
            let lifetime = lifetime(token_type)->0;
            assert(ordered_claims(order, now, lifetime) == account_claims(
                account_of(user),
                token_type,
                client_id,
                now,
                lifetime,
            ));
        },
        _ => {},
    }
}

/// A refresh token for an application is not one for none.
proof fn tokens_differ(
    for_app: Seq<char>,
    for_none: Seq<char>,
    secret: Seq<char>,
    account: Account,
    app_id: Seq<char>,
)
    requires
        token_for(for_app, secret, account, "refresh"@, Some(app_id)),
        token_for(for_none, secret, account, "refresh"@, None),
    ensures
        for_app != for_none,
{
    let claims = claims_of_jwt(for_app, secret)->0;
    let other = claims_of_jwt(for_none, secret)->0;
    assert(claims.client_id == Some(app_id));
    assert(other.client_id is None);
}

proof fn signing_in_goes_on(login: Login, before: World, h: Login, now: World, reply: Reply)
    requires
        signing_in(login, before, begun(h, now)),
        now.true_reply(h.asks(), reply),
    ensures
        signing_in(
            login,
            before,
            Standing { outcome: h.next(reply), world: now.left_by(h.asks(), reply) },
        ),
{
    let s = Standing { outcome: h.next(reply), world: now.left_by(h.asks(), reply) };
    match (h.stage, reply) {
        (LoginStage::ReadGroups { user, .. }, Reply::Texts(Ok(groups))) => {
            assert(seen_groups(before, user.id, known(Some(groups))));
        },
        (LoginStage::ReadGroups { user, .. }, Reply::Texts(Err(_))) => {
            assert(seen_groups(before, user.id, known(None)));
        },
        (LoginStage::CachedGroups { user }, Reply::MaybeText(Err(_))) => {
            assert(seen_groups(before, user.id, known(None)));
        },
        (LoginStage::CacheGroups { user, groups, .. }, Reply::Done(_)) => {
            assert(seen_groups(before, user.id, known(Some(groups))));
        },
        (LoginStage::Access { user, access }, reply) => {
            let groups = known(access.user_groups);
            match (access.stage, reply) {
                (AppAccessStage::FindApp, Reply::App(Ok(app))) => {
                    assert(before.apps.contains(app_row(app)));
                    if app.group_id is None {
                        assert(before.open_to(access.app_id@, groups));
                    }
                },
                (AppAccessStage::MatchGroups, Reply::MaybeId(Ok(Some(id)))) => {
                    assert(before.open_to(access.app_id@, groups));
                },
                _ => {},
            }
            assert(seen_groups(before, user.id, groups));
            assert(signing_in(login, before, s));
        },
        (LoginStage::AppAccessToken { user, app_id, secret }, _) => {
            ordered_token_is_for_user(user, "access"@, Some(app_id@), secret, reply);
        },
        (LoginStage::AppRefreshToken { user, app_id, secret, .. }, _) => {
            ordered_token_is_for_user(user, "refresh"@, Some(app_id@), secret, reply);
        },
        (LoginStage::AccessToken { user, secret, .. }, _) => {
            ordered_token_is_for_user(user, "access"@, None, secret, reply);
        },
        (
            LoginStage::RefreshToken { user, secret, app_tokens, access_token },
            Reply::Token(Ok(refresh_token)),
        ) => {
            ordered_token_is_for_user(user, "refresh"@, None, secret, reply);
            assert(app_done(login, before, s.world, user, Ok(secret->Ok_0), app_tokens));
            assert(signing_in(login, before, s));
        },
        (
            LoginStage::Session { user, app_tokens, access_token, refresh_token },
            Reply::Done(Ok(_)),
        ) => {
            let secret = choose|secret: String| #[trigger]
                app_done(login, before, now, user, Ok(secret), app_tokens)
                    && before.environment.contains_pair("JWT_SECRET"@, secret@) && pair_for(
                    LoginResponse { access_token, refresh_token },
                    secret@,
                    account_of(user),
                    None,
                );
            let answer = IAMLoginResponse {
                app_tokens,
                iam_tokens: LoginResponse { access_token, refresh_token },
            };
            match (login.request.client_id, app_tokens) {
                (Some(app_id), Some(tokens)) => {
                    tokens_differ(
                        tokens.refresh_token@,
                        refresh_token@,
                        secret@,
                        account_of(user),
                        app_id@,
                    );
                },
                _ => {},
            }
            assert(signed_in(login, before, s.world, answer, account_of(user), secret@));
            assert(signing_in(login, before, s));
        },
        _ => {},
    }
}

/// A login that succeeds was with the password of an account with the address.
/// The answer is an access and a refresh token for that account, and the refresh
/// token is cached. If the login names an application, that application is open
/// to the user, and a pair of tokens for it comes too, the refresh token of which is
/// cached with the application. The database is as before.
pub proof fn login_gives_tokens(request: Login, world: World, replies: Seq<Reply>)
    requires
        request.stage is OpenDatabase,
        truthful(begun(request, world), replies),
    ensures
        served(begun(request, world), replies).outcome matches Outcome::Done(Ok(answer))
            ==> exists|account: Account, secret: Seq<char>| #[trigger]
            signed_in(
                request,
                world,
                served(begun(request, world), replies).world,
                answer,
                account,
                secret,
            ),
{
    assert forall|h: Login, now: World, reply: Reply|
        signing_in(request, world, begun(h, now)) && #[trigger] truth()(
            now,
            h.asks(),
            reply,
        ) implies signing_in(
        request,
        world,
        Standing { outcome: h.next(reply), world: now.left_by(h.asks(), reply) },
    ) by {
        signing_in_goes_on(request, world, h, now, reply);
    }
    kept_throughout(
        begun(request, world),
        replies,
        truth(),
        |s: Standing<Login, IAMLoginResponse>| signing_in(request, world, s),
    );
}

/// Whether every account with an address takes a password, and there is one.
pub open spec fn password_right(world: World, email: Seq<char>, password: Seq<char>) -> bool {
    &&& world.has_email(email)
    &&& forall|a: Account| #[trigger]
        world.users.contains(a) && a.email == email ==> takes(a, email, password)
}

/// Whether no account with an address takes a password.
pub open spec fn password_wrong(world: World, email: Seq<char>, password: Seq<char>) -> bool {
    forall|a: Account| #[trigger] world.users.contains(a) ==> !takes(a, email, password)
}

/// With the right password, a login that names no application succeeds unless a
/// service fails.
pub proof fn right_password_is_let_in(request: Login, world: World, replies: Seq<Reply>)
    requires
        request.stage is OpenDatabase,
        request.request.client_id is None,
        password_right(world, request.request.email@, request.request.password@),
        world.environment.contains_key("JWT_SECRET"@),
        lucky(begun(request, world), replies),
    ensures
        match served(begun(request, world), replies).outcome {
            Outcome::Ask(_) => true,
            Outcome::Done(Ok(answer)) => answer.app_tokens is None,
            _ => false,
        },
{
    let r = request.request;
    kept_throughout(
        begun(request, world),
        replies,
        luck(),
        |s: Standing<Login, IAMLoginResponse>|
            s.world == (World { cache: s.world.cache, ..world }) && match s.outcome {
                Outcome::Ask(h) => h.request == r && match h.stage {
                    LoginStage::Verify { user, hash } => user.password_hash == Some(hash)
                        && accepts(r.password@, hash@),
                    LoginStage::Access { .. } => false,
                    LoginStage::AppSecret { .. } => false,
                    LoginStage::AppAccessToken { .. } => false,
                    LoginStage::AppRefreshToken { .. } => false,
                    LoginStage::AppSession { .. } => false,
                    LoginStage::AccessToken { app_tokens, .. } => app_tokens is None,
                    LoginStage::RefreshToken { app_tokens, .. } => app_tokens is None,
                    LoginStage::Session { app_tokens, .. } => app_tokens is None,
                    _ => true,
                },
                Outcome::Done(Ok(answer)) => answer.app_tokens is None,
                _ => false,
            },
    );
}

/// With a wrong password nobody gets in, whatever the services do, and nothing
/// changes. If no service fails, the login is refused as unauthorized.
pub proof fn wrong_password_is_kept_out(request: Login, world: World, replies: Seq<Reply>)
    requires
        request.stage is OpenDatabase,
        password_wrong(world, request.request.email@, request.request.password@),
        truthful(begun(request, world), replies),
    ensures
        served(begun(request, world), replies).world == world,
        match served(begun(request, world), replies).outcome {
            Outcome::Ask(_) => true,
            Outcome::Done(Err(f)) => f.status_code == 401 || f.status_code == 503,
            _ => false,
        },
        lucky(begun(request, world), replies) ==> (served(
            begun(request, world),
            replies,
        ).outcome matches Outcome::Done(Err(f)) ==> f.status_code == 401),
{
    let r = request.request;
    let kept = |s: Standing<Login, IAMLoginResponse>, code: u16|
        s.world == world && match s.outcome {
            Outcome::Ask(h) => h.request == r && match h.stage {
                LoginStage::OpenDatabase => true,
                LoginStage::OpenCache => true,
                LoginStage::FindUser => true,
                LoginStage::Verify { user, hash } => user.password_hash == Some(hash)
                    && world.users.contains(account_of(user)) && user.email_id@ == r.email@,
                _ => false,
            },
            Outcome::Done(Err(f)) => f.status_code == 401 || f.status_code == code,
            _ => false,
        };
    kept_throughout(
        begun(request, world),
        replies,
        truth(),
        |s: Standing<Login, IAMLoginResponse>| kept(s, 503),
    );
    if lucky(begun(request, world), replies) {
        kept_throughout(
            begun(request, world),
            replies,
            luck(),
            |s: Standing<Login, IAMLoginResponse>| kept(s, 401),
        );
    }
}

/// A login that names an application which does not exist, is disabled, or is
/// open to none of the groups that the user may be taken to be in, does not
/// succeed.
pub proof fn closed_app_is_kept_closed(request: Login, world: World, replies: Seq<Reply>)
    requires
        request.stage is OpenDatabase,
        truthful(begun(request, world), replies),
        request.request.client_id matches Some(app_id) && forall|
            account: Account,
            groups: Seq<Seq<char>>,
        |
            world.users.contains(account) && account.email == request.request.email@ && #[trigger]
            seen_groups(world, account.id, groups) ==> !world.open_to(app_id@, groups),
    ensures
        !(served(begun(request, world), replies).outcome matches Outcome::Done(Ok(_))),
{
    login_gives_tokens(request, world, replies);
}

/// What a token says that takes the place of another: the same of its holder, but
/// as an access token that is made now.
pub open spec fn refreshed_claims(claims: ClaimsView, now: i64) -> ClaimsView {
    ClaimsView {
        token_type: "access"@,
        exp: (seconds(now) + 900) as usize,
        ..claims
    }
}

/// Whether a new access token is owed to a refresh token: the refresh token is
/// valid and of that type, and the new token is for the same holder.
pub open spec fn refreshed(
    world: World,
    token: Seq<char>,
    access_token: Seq<char>,
    secret: Seq<char>,
    claims: ClaimsView,
) -> bool {
    &&& world.environment.contains_pair("JWT_SECRET"@, secret)
    &&& claims_of_jwt(token, secret) == Some(claims)
    &&& claims.token_type == "refresh"@
    &&& exists|now: i64| #[trigger]
        shown(now) && claims_of_jwt(access_token, secret) == Some(refreshed_claims(claims, now))
}

/// A new access token is given only for a valid refresh token that is cached, and
/// says the same of its holder. Nothing changes but what has expired.
pub proof fn cached_token_is_refreshed(request: RefreshToken, world: World, replies: Seq<Reply>)
    requires
        request.stage is OpenCache,
        truthful(begun(request, world), replies),
    ensures
        served(begun(request, world), replies).outcome matches Outcome::Done(Ok(answer)) ==> {
            &&& served(begun(request, world), replies).world == world
            &&& world.cache.contains_key(request.request.refresh_token@)
            &&& exists|secret: Seq<char>, claims: ClaimsView| #[trigger]
                refreshed(
                    world,
                    request.request.refresh_token@,
                    answer.access_token@,
                    secret,
                    claims,
                )
        },
{
    assert forall|h: RefreshToken, now: World, reply: Reply|
        refreshing(request, world, begun(h, now)) && #[trigger] truth()(
            now,
            h.asks(),
            reply,
        ) implies refreshing(
        request,
        world,
        Standing { outcome: h.next(reply), world: now.left_by(h.asks(), reply) },
    ) by {
        refreshing_goes_on(request, world, h, now, reply);
    }
    kept_throughout(
        begun(request, world),
        replies,
        truth(),
        |s: Standing<RefreshToken, RefreshTokenResponse>| refreshing(request, world, s),
    );
}

/// How a request for a new access token stands on its way.
spec fn refreshing(
    request: RefreshToken,
    world: World,
    s: Standing<RefreshToken, RefreshTokenResponse>,
) -> bool {
    let token = request.request.refresh_token@;
    match s.outcome {
        Outcome::Ask(h) => {
            &&& s.world == world
            &&& h.request == request.request
            &&& match h.stage {
                RefreshTokenStage::OpenCache => true,
                RefreshTokenStage::Secret => true,
                RefreshTokenStage::Read { secret } => world.environment.contains_pair(
                    "JWT_SECRET"@,
                    secret@,
                ),
                RefreshTokenStage::Find { secret, claims } => {
                    &&& world.environment.contains_pair("JWT_SECRET"@, secret@)
                    &&& claims_of_jwt(token, secret@) == Some(claims@)
                    &&& claims.token_type@ == "refresh"@
                },
                RefreshTokenStage::Create { secret, claims } => {
                    &&& world.environment.contains_pair("JWT_SECRET"@, secret@)
                    &&& claims_of_jwt(token, secret@) == Some(claims@)
                    &&& claims.token_type@ == "refresh"@
                    &&& world.cache.contains_key(token)
                },
            }
        },
        Outcome::Done(Ok(answer)) => {
            &&& s.world == world
            &&& world.cache.contains_key(token)
            &&& exists|secret: Seq<char>, claims: ClaimsView| #[trigger]
                refreshed(world, token, answer.access_token@, secret, claims)
        },
        _ => true,
    }
}

proof fn refreshing_goes_on(
    request: RefreshToken,
    world: World,
    h: RefreshToken,
    now: World,
    reply: Reply,
)
    requires
        refreshing(request, world, begun(h, now)),
        now.true_reply(h.asks(), reply),
    ensures
        refreshing(
            request,
            world,
            Standing { outcome: h.next(reply), world: now.left_by(h.asks(), reply) },
        ),
{
    let s = Standing { outcome: h.next(reply), world: now.left_by(h.asks(), reply) };
    match (h.stage, reply) {
        (RefreshTokenStage::Create { secret, claims }, Reply::Token(Ok(token))) => {
            let order = holder_order(claims, "access"@, maybe_text(claims.client_id), Ok(secret));
            let time = choose|time: i64|
                #![trigger shown(time)]
                shown(time) && token_made(order, time, settled_text(Ok(token)));
            assert(ordered_claims(order, time, 900) == refreshed_claims(claims@, time));
            let answer = RefreshTokenResponse { access_token: token };
            assert(refreshed(
                world,
                request.request.refresh_token@,
                answer.access_token@,
                secret@,
                claims@,
            ));
            assert(s.outcome matches Outcome::Done(Ok(a)) && a == answer);
            assert(refreshing(request, world, s));
        },
        _ => {},
    }
}

/// The refusal of a refresh token that is not cached.
pub open spec fn token_gone() -> Failure {
    refusal(
        Status::Unauthorized,
        at("refresh_token"@, "refresh token not found in Redis (expired or revoked)"@),
    )
}

/// The refusal of a token that is no refresh token.
pub open spec fn wrong_token_type(token_type: Seq<char>) -> Failure {
    refusal(
        Status::Unauthorized,
        at("refresh_token"@, "expected token_type 'refresh', got '"@ + token_type + "'"@),
    )
}

/// The refusal of a token that is read, under a secret, but not cached.
pub open spec fn refused_as_gone(token: Seq<char>, secret: Seq<char>) -> Failure {
    match claims_of_jwt(token, secret) {
        Some(claims) => if claims.token_type == "refresh"@ {
            token_gone()
        } else {
            wrong_token_type(claims.token_type)
        },
        None => token_gone(),
    }
}

/// A refresh token that is not cached, because it was revoked or has expired, gets
/// no new access token, whatever the services do. If none fails and the token is
/// read, it is refused as unauthorized, as gone if it is one for refreshing.
pub proof fn revoked_token_is_refused(request: RefreshToken, world: World, replies: Seq<Reply>)
    requires
        request.stage is OpenCache,
        !world.cache.contains_key(request.request.refresh_token@),
        truthful(begun(request, world), replies),
    ensures
        match served(begun(request, world), replies).outcome {
            Outcome::Ask(_) => true,
            Outcome::Done(Err(_)) => true,
            _ => false,
        },
        lucky(begun(request, world), replies) && world.environment.contains_key("JWT_SECRET"@) ==> (
        served(begun(request, world), replies).outcome matches Outcome::Done(Err(f)) ==> f
            == refused_as_gone(
            request.request.refresh_token@,
            world.environment["JWT_SECRET"@],
        )),
{
    let token = request.request.refresh_token@;
    let key = world.environment["JWT_SECRET"@];
    kept_throughout(
        begun(request, world),
        replies,
        truth(),
        |s: Standing<RefreshToken, RefreshTokenResponse>|
            !s.world.cache.contains_key(token) && match s.outcome {
                Outcome::Ask(h) => h.request == request.request && !(h.stage is Create),
                Outcome::Done(Err(_)) => true,
                _ => false,
            },
    );
    if lucky(begun(request, world), replies) && world.environment.contains_key("JWT_SECRET"@) {
        kept_throughout(
            begun(request, world),
            replies,
            luck(),
            |s: Standing<RefreshToken, RefreshTokenResponse>|
                !s.world.cache.contains_key(token) && s.world.environment == world.environment
                    && match s.outcome {
                    Outcome::Ask(h) => h.request == request.request && match h.stage {
                        RefreshTokenStage::Create { .. } => false,
                        RefreshTokenStage::Read { secret } => secret@ == key,
                        RefreshTokenStage::Find { claims, .. } => claims_of_jwt(token, key)
                            == Some(claims@) && claims.token_type@ == "refresh"@,
                        _ => true,
                    },
                    Outcome::Done(Err(f)) => f == refused_as_gone(token, key),
                    _ => false,
                },
        );
    }
}

/// A valid refresh token that is cached is good for a new access token that says
/// the same of its holder, unless a service fails.
pub proof fn good_token_is_refreshed(
    request: RefreshToken,
    world: World,
    replies: Seq<Reply>,
    secret: Seq<char>,
    claims: ClaimsView,
)
    requires
        request.stage is OpenCache,
        world.environment.contains_pair("JWT_SECRET"@, secret),
        claims_of_jwt(request.request.refresh_token@, secret) == Some(claims),
        claims.token_type == "refresh"@,
        world.cache.contains_key(request.request.refresh_token@),
        lucky(begun(request, world), replies),
    ensures
        match served(begun(request, world), replies).outcome {
            Outcome::Ask(_) => true,
            Outcome::Done(Ok(answer)) => exists|now: i64| #[trigger]
                shown(now) && claims_of_jwt(answer.access_token@, secret) == Some(
                    refreshed_claims(claims, now),
                ),
            Outcome::Done(Err(_)) => false,
        },
{
    reveal_strlit("access");
    reveal_strlit("refresh");
    kept_throughout(
        begun(request, world),
        replies,
        luck(),
        |s: Standing<RefreshToken, RefreshTokenResponse>|
            s.world == world && match s.outcome {
                Outcome::Ask(h) => h.request == request.request && match h.stage {
                    RefreshTokenStage::Read { secret: key } => key@ == secret,
                    RefreshTokenStage::Find { secret: key, claims: read } => key@ == secret
                        && read@ == claims,
                    RefreshTokenStage::Create { secret: key, claims: read } => key@ == secret
                        && read@ == claims,
                    _ => true,
                },
                Outcome::Done(Ok(_)) => true,
                Outcome::Done(Err(_)) => false,
            },
    );
    lucky_is_truthful(begun(request, world), replies);
    cached_token_is_refreshed(request, world, replies);
    match served(begun(request, world), replies).outcome {
        Outcome::Done(Ok(answer)) => {
            let (key, read) = choose|key: Seq<char>, read: ClaimsView| #[trigger]
                refreshed(
                    world,
                    request.request.refresh_token@,
                    answer.access_token@,
                    key,
                    read,
                );
            assert(key == secret && read == claims);
        },
        _ => {},
    }
}

/// The refresh token of a login that succeeded is good for a new access token,
/// unless a service fails.
pub proof fn fresh_token_is_refreshed(
    request: RefreshToken,
    world: World,
    replies: Seq<Reply>,
    secret: Seq<char>,
    account: Account,
    client_id: Option<Seq<char>>,
)
    requires
        request.stage is OpenCache,
        world.environment.contains_pair("JWT_SECRET"@, secret),
        token_for(request.request.refresh_token@, secret, account, "refresh"@, client_id),
        world.cache.contains_key(request.request.refresh_token@),
        lucky(begun(request, world), replies),
    ensures
        match served(begun(request, world), replies).outcome {
            Outcome::Ask(_) => true,
            Outcome::Done(Ok(answer)) => token_for(
                answer.access_token@,
                secret,
                account,
                "access"@,
                client_id,
            ),
            Outcome::Done(Err(_)) => false,
        },
{
    let claims = claims_of_jwt(request.request.refresh_token@, secret)->0;
    good_token_is_refreshed(request, world, replies, secret, claims);
    match served(begun(request, world), replies).outcome {
        Outcome::Done(Ok(answer)) => {
            let now = choose|now: i64| #[trigger]
                shown(now) && claims_of_jwt(answer.access_token@, secret) == Some(
                    refreshed_claims(claims, now),
                );
            assert(refreshed_claims(claims, now) == account_claims(
                account,
                "access"@,
                client_id,
                now,
                900,
            ));
            assert(token_for(answer.access_token@, secret, account, "access"@, client_id));
        },
        _ => {},
    }
}

/// After a logout that succeeds, the refresh token is not cached. All else is as
/// before.
pub proof fn logout_revokes_token(request: Logout, world: World, replies: Seq<Reply>)
    requires
        request.stage is OpenCache,
        truthful(begun(request, world), replies),
    ensures
        served(begun(request, world), replies).outcome matches Outcome::Done(Ok(_)) ==> served(
            begun(request, world),
            replies,
        ).world == (World {
            cache: world.cache.remove(request.request.refresh_token@),
            ..world
        }),
{
    kept_throughout(
        begun(request, world),
        replies,
        truth(),
        |s: Standing<Logout, Seq<char>>|
            match s.outcome {
                Outcome::Ask(h) => s.world == world && h.request == request.request,
                Outcome::Done(Ok(_)) => s.world == (World {
                    cache: world.cache.remove(request.request.refresh_token@),
                    ..world
                }),
                _ => true,
            },
    );
}

/// A user who logged out cannot refresh: after a logout that succeeds, the token
/// gets no new access token, whatever the services do.
pub proof fn logged_out_token_is_refused(
    logout: Logout,
    world: World,
    replies: Seq<Reply>,
    refresh: RefreshToken,
    later: Seq<Reply>,
)
    requires
        logout.stage is OpenCache,
        refresh.stage is OpenCache,
        refresh.request.refresh_token@ == logout.request.refresh_token@,
        truthful(begun(logout, world), replies),
        served(begun(logout, world), replies).outcome matches Outcome::Done(Ok(_)),
        truthful(begun(refresh, served(begun(logout, world), replies).world), later),
    ensures
        !(served(
            begun(refresh, served(begun(logout, world), replies).world),
            later,
        ).outcome matches Outcome::Done(Ok(_))),
{
    logout_revokes_token(logout, world, replies);
    revoked_token_is_refused(refresh, served(begun(logout, world), replies).world, later);
}

/// A clearing of the cache that succeeds forgets the two lists of groups of the
/// holder of the token, and nothing else.
pub proof fn own_lists_are_forgotten(request: ClearRedis, world: World, replies: Seq<Reply>)
    requires
        request.stage is OpenCache,
        truthful(begun(request, world), replies),
    ensures
        served(begun(request, world), replies).outcome matches Outcome::Done(Ok(_)) ==> served(
            begun(request, world),
            replies,
        ).world == (World {
            cache: world.cache.remove("user_groups:"@ + request.claims.user_id@).remove(
                "groups_owned:"@ + request.claims.user_id@,
            ),
            ..world
        }),
{
    let user = request.claims.user_id@;
    kept_throughout(
        begun(request, world),
        replies,
        truth(),
        |s: Standing<ClearRedis, Seq<char>>|
            match s.outcome {
                Outcome::Ask(h) => h.claims == request.claims && match h.stage {
                    ClearRedisStage::ForgetOwned => s.world == (World {
                        cache: world.cache.remove("user_groups:"@ + user),
                        ..world
                    }),
                    _ => s.world == world,
                },
                Outcome::Done(Ok(_)) => s.world == (World {
                    cache: world.cache.remove("user_groups:"@ + user).remove(
                        "groups_owned:"@ + user,
                    ),
                    ..world
                }),
                _ => true,
            },
    );
}

/// Whether a token is one of a type for the holder of another, made at some time.
pub open spec fn token_for_holder(
    token: Seq<char>,
    secret: Seq<char>,
    holder: ClaimsView,
    token_type: Seq<char>,
    client_id: Option<Seq<char>>,
) -> bool {
    (token_type == "access"@ || token_type == "refresh"@) && exists|now: i64| #[trigger]
        shown(now) && claims_of_jwt(token, secret) == Some(
            ClaimsView {
                token_type,
                client_id,
                exp: (seconds(now) + token_life(token_type)) as usize,
                ..holder
            },
        )
}

/// Whether a pair is an access and a refresh token for the holder of another,
/// signed with the secret of the environment.
pub open spec fn pair_for_holder(
    world: World,
    tokens: LoginResponse,
    secret: Seq<char>,
    holder: ClaimsView,
    client_id: Option<Seq<char>>,
) -> bool {
    &&& world.environment.contains_pair("JWT_SECRET"@, secret)
    &&& token_for_holder(tokens.access_token@, secret, holder, "access"@, client_id)
    &&& token_for_holder(tokens.refresh_token@, secret, holder, "refresh"@, client_id)
}

/// What a request for tokens for an application has left and answered at the end.
pub open spec fn app_tokens_given(
    request: GenerateAppTokens,
    groups: Seq<Seq<char>>,
    before: World,
    after: World,
    answer: LoginResponse,
    secret: Seq<char>,
) -> bool {
    &&& before.open_to(request.app_id@, groups)
    &&& pair_for_holder(before, answer, secret, request.claims@, Some(request.app_id@))
    &&& after == World {
        cache: before.cache.insert(
            answer.refresh_token@,
            cached_session(JsonView::Text(request.claims.user_id@), Some(request.app_id@)),
        ),
        ..before
    }
}

/// How a request for tokens for an application stands on its way.
spec fn giving_app_tokens(
    request: GenerateAppTokens,
    given: Vec<String>,
    before: World,
    s: Standing<GenerateAppTokens, LoginResponse>,
) -> bool {
    let groups = texts(given@);
    match s.outcome {
        Outcome::Ask(h) => {
            &&& s.world == before
            &&& h.app_id == request.app_id
            &&& h.claims == request.claims
            &&& match h.stage {
                GenerateAppTokensStage::OpenDatabase { groups: g } => g == given,
                GenerateAppTokensStage::OpenCache { groups: g } => g == given,
                GenerateAppTokensStage::Access { access } => access.app_id == request.app_id
                    && access.user_groups == Some(given) && (access.stage is MatchGroups
                    ==> before.has_enabled_app(request.app_id@)),
                GenerateAppTokensStage::Secret => before.open_to(request.app_id@, groups),
                GenerateAppTokensStage::AccessToken { secret } => before.open_to(
                    request.app_id@,
                    groups,
                ) && known_secret(before, secret),
                GenerateAppTokensStage::RefreshToken { secret, access_token } => before.open_to(
                    request.app_id@,
                    groups,
                ) && known_secret(before, secret) && secret is Ok && token_for_holder(
                    access_token@,
                    secret->Ok_0@,
                    request.claims@,
                    "access"@,
                    Some(request.app_id@),
                ),
                GenerateAppTokensStage::Session { access_token, refresh_token } => before.open_to(
                    request.app_id@,
                    groups,
                ) && exists|secret: Seq<char>| #[trigger]
                    pair_for_holder(
                        before,
                        LoginResponse { access_token, refresh_token },
                        secret,
                        request.claims@,
                        Some(request.app_id@),
                    ),
            }
        },
        Outcome::Done(Ok(answer)) => exists|secret: Seq<char>| #[trigger]
            app_tokens_given(request, groups, before, s.world, answer, secret),
        _ => true,
    }
}

/// A token that was ordered for the holder of another is one for that holder.
proof fn ordered_token_is_for_holder(
    claims: Claims,
    token_type: Seq<char>,
    client_id: Option<Seq<char>>,
    secret: Result<String, String>,
    reply: Reply,
)
    requires
        token_type == "access"@ || token_type == "refresh"@,
        answered(
            TaskView::CreateJwt(holder_order(claims, token_type, client_id, secret)),
            reply,
        ),
    ensures
        reply matches Reply::Token(Ok(token)) ==> secret is Ok && token_for_holder(
            token@,
            secret->Ok_0@,
            claims@,
            token_type,
            client_id,
        ),
{
    let order = holder_order(claims, token_type, client_id, secret);
    match reply {
        Reply::Token(Ok(token)) => {
            let now = choose|now: i64|
                #![trigger shown(now)]
                shown(now) && token_made(order, now, settled_text(Ok(token)));
            let lifetime = lifetime(token_type)->0;
            assert(ordered_claims(order, now, lifetime) == (ClaimsView {
                token_type,
                client_id,
                exp: (seconds(now) + lifetime) as usize,
                ..claims@
            }));
        },
        _ => {},
    }
}

/// Tokens for an application are given only if it is open to the groups of the
/// holder. They are for the holder, and the refresh token is cached. All else is
/// as before.
pub proof fn open_app_gives_tokens(
    request: GenerateAppTokens,
    given: Vec<String>,
    world: World,
    replies: Seq<Reply>,
)
    requires
        request.stage == (GenerateAppTokensStage::OpenDatabase { groups: given }),
        truthful(begun(request, world), replies),
    ensures
        served(begun(request, world), replies).outcome matches Outcome::Done(Ok(answer))
            ==> exists|secret: Seq<char>| #[trigger]
            app_tokens_given(
                request,
                texts(given@),
                world,
                served(begun(request, world), replies).world,
                answer,
                secret,
            ),
{
    assert forall|h: GenerateAppTokens, now: World, reply: Reply|
        giving_app_tokens(request, given, world, begun(h, now)) && #[trigger] truth()(
            now,
            h.asks(),
            reply,
        ) implies giving_app_tokens(
        request,
        given,
        world,
        Standing { outcome: h.next(reply), world: now.left_by(h.asks(), reply) },
    ) by {
        let s = Standing { outcome: h.next(reply), world: now.left_by(h.asks(), reply) };
        let app = Some(request.app_id@);
        match (h.stage, reply) {
            (GenerateAppTokensStage::Access { access }, Reply::App(Ok(a))) => {
                assert(world.apps.contains(app_row(a)));
            },
            (GenerateAppTokensStage::AccessToken { secret }, _) => {
                ordered_token_is_for_holder(request.claims, "access"@, app, secret, reply);
            },
            (
                GenerateAppTokensStage::RefreshToken { secret, access_token },
                Reply::Token(Ok(refresh_token)),
            ) => {
                ordered_token_is_for_holder(request.claims, "refresh"@, app, secret, reply);
                match s.outcome {
                    Outcome::Ask(next) => match next.stage {
                        GenerateAppTokensStage::Session { access_token: a, refresh_token: r } => {
                            assert(pair_for_holder(
                                world,
                                LoginResponse { access_token: a, refresh_token: r },
                                secret->Ok_0@,
                                request.claims@,
                                app,
                            ));
                        },
                        _ => {},
                    },
                    _ => {},
                }
                assert(giving_app_tokens(request, given, world, s));
            },
            (
                GenerateAppTokensStage::Session { access_token, refresh_token },
                Reply::Done(Ok(_)),
            ) => {
                let answer = LoginResponse { access_token, refresh_token };
                let secret = choose|secret: Seq<char>| #[trigger]
                    pair_for_holder(world, answer, secret, request.claims@, app);
                assert(app_tokens_given(
                    request,
                    texts(given@),
                    world,
                    s.world,
                    answer,
                    secret,
                ));
                assert(s.outcome matches Outcome::Done(Ok(a)) && a == answer);
                assert(giving_app_tokens(request, given, world, s));
            },
            _ => {},
        }
    }
    kept_throughout(
        begun(request, world),
        replies,
        truth(),
        |s: Standing<GenerateAppTokens, LoginResponse>|
            giving_app_tokens(request, given, world, s),
    );
}

/// The groups of a user that a login loads from the database are cached so that
/// the next login reads the same ones, unless a service fails or a token happens
/// to be cached under the same key.
pub proof fn loaded_groups_are_cached(request: Login, world: World, replies: Seq<Reply>)
    requires
        request.stage is OpenDatabase,
        lucky(begun(request, world), replies),
    ensures
        served(begun(request, world), replies).outcome matches Outcome::Done(Ok(answer)) ==> exists|
            account: Account,
        | #[trigger]
            world.users.contains(account) && account.email == request.request.email@ && ({
                let key = groups_key(account.id);
                !world.cache.contains_key(key) && answer.iam_tokens.refresh_token@ != key && (
                answer.app_tokens matches Some(tokens) ==> tokens.refresh_token@ != key) ==> {
                    let after = served(begun(request, world), replies).world;
                    after.cache.contains_key(key) && exists|groups: Seq<Seq<char>>|
                        world.has_groups(account.id, groups) && #[trigger] reads_as(
                            after.cache[key],
                            groups,
                        )
                }
            }),
{
    assert forall|h: Login, now: World, reply: Reply|
        caching_groups(request, world, begun(h, now)) && #[trigger] luck()(
            now,
            h.asks(),
            reply,
        ) implies caching_groups(
        request,
        world,
        Standing { outcome: h.next(reply), world: now.left_by(h.asks(), reply) },
    ) by {
        caching_groups_goes_on(request, world, h, now, reply);
    }
    kept_throughout(
        begun(request, world),
        replies,
        luck(),
        |s: Standing<Login, IAMLoginResponse>| caching_groups(request, world, s),
    );
}

/// Whether the groups of a user are cached, if they had to be.
spec fn groups_cached(before: World, now: World, user: User) -> bool {
    let key = groups_key(user.id);
    before.cache.contains_key(key) || now.cache.contains_key(key) && exists|groups: Seq<Seq<char>>|
        before.has_groups(user.id, groups) && #[trigger] reads_as(now.cache[key], groups)
}

/// How a login stands with regard to the cached groups of its user.
spec fn caching_groups(login: Login, before: World, s: Standing<Login, IAMLoginResponse>) -> bool {
    let found = |user: User| before.users.contains(account_of(user)) && user.email_id@
        == login.request.email@;
    match s.outcome {
        Outcome::Ask(h) => {
            &&& s.world == (World { cache: s.world.cache, ..before })
            &&& h.request == login.request
            &&& match h.stage {
                LoginStage::OpenDatabase => s.world == before,
                LoginStage::OpenCache => s.world == before,
                LoginStage::FindUser => s.world == before,
                LoginStage::Verify { user, .. } => s.world == before && found(user),
                LoginStage::CachedGroups { user } => s.world == before && found(user),
                LoginStage::ReadGroups { user, .. } => found(user) && groups_cached(
                    before,
                    s.world,
                    user,
                ),
                LoginStage::LoadGroups { user } => found(user),
                LoginStage::WriteGroups { user, groups } => found(user) && before.has_groups(
                    user.id,
                    texts(groups@),
                ),
                LoginStage::CacheGroups { user, groups, written_groups } => found(user)
                    && before.has_groups(user.id, texts(groups@)) && reads_as(
                    written(written_groups),
                    texts(groups@),
                ),
                LoginStage::Access { user, .. }
                | LoginStage::AppSecret { user, .. }
                | LoginStage::AppAccessToken { user, .. }
                | LoginStage::AppRefreshToken { user, .. }
                | LoginStage::AppSession { user, .. }
                | LoginStage::Secret { user } => found(user) && groups_cached(
                    before,
                    s.world,
                    user,
                ),
                LoginStage::AccessToken { user, app_tokens, .. }
                | LoginStage::RefreshToken { user, app_tokens, .. }
                | LoginStage::Session { user, app_tokens, .. } => found(user) && ((
                app_tokens matches Some(t) && t.refresh_token@ == groups_key(user.id))
                    || groups_cached(before, s.world, user)),
            }
        },
        Outcome::Done(Ok(answer)) => exists|account: Account| #[trigger]
            before.users.contains(account) && account.email == login.request.email@ && ({
                let key = groups_key(account.id);
                !before.cache.contains_key(key) && answer.iam_tokens.refresh_token@ != key && (
                answer.app_tokens matches Some(tokens) ==> tokens.refresh_token@ != key)
                    ==> s.world.cache.contains_key(key) && exists|groups: Seq<Seq<char>>|
                    before.has_groups(account.id, groups) && #[trigger] reads_as(
                        s.world.cache[key],
                        groups,
                    )
            }),
        _ => true,
    }
}

proof fn groups_stay_cached(before: World, now: World, later: World, user: User)
    requires
        groups_cached(before, now, user),
        now.cache.contains_key(groups_key(user.id)) ==> later.cache.contains_pair(
            groups_key(user.id),
            now.cache[groups_key(user.id)],
        ),
    ensures
        groups_cached(before, later, user),
{
    let key = groups_key(user.id);
    if !before.cache.contains_key(key) {
        let groups = choose|groups: Seq<Seq<char>>|
            before.has_groups(user.id, groups) && #[trigger] reads_as(now.cache[key], groups);
        assert(reads_as(later.cache[key], groups));
    }
}

proof fn caching_groups_goes_on(login: Login, before: World, h: Login, now: World, reply: Reply)
    requires
        caching_groups(login, before, begun(h, now)),
        now.true_reply(h.asks(), reply),
        now.smooth_reply(h.asks(), reply),
    ensures
        caching_groups(
            login,
            before,
            Standing { outcome: h.next(reply), world: now.left_by(h.asks(), reply) },
        ),
{
    let s = Standing { outcome: h.next(reply), world: now.left_by(h.asks(), reply) };
    match (h.stage, reply) {
        (LoginStage::CacheGroups { user, groups, .. }, Reply::Done(Ok(_))) => {
            assert(reads_as(s.world.cache[groups_key(user.id)], texts(groups@)));
            assert(groups_cached(before, s.world, user));
        },
        (LoginStage::AppSession { user, refresh_token, .. }, Reply::Done(Ok(_))) => {
            if refresh_token@ != groups_key(user.id) {
                groups_stay_cached(before, now, s.world, user);
            }
        },
        (LoginStage::Session { user, refresh_token, .. }, Reply::Done(Ok(_))) => {
            assert(before.users.contains(account_of(user)));
            if refresh_token@ != groups_key(user.id) && groups_cached(before, now, user) {
                groups_stay_cached(before, now, s.world, user);
            }
            assert(caching_groups(login, before, s));
        },
        _ => {},
    }
}

/// Who registers and confirms can sign in: once the confirmation of a
/// registration for a new address has succeeded, a login with that address and
/// the password of the registration succeeds unless a service fails.
pub proof fn registered_user_can_sign_in(
    confirmation: RegistrationConfirmation,
    world: World,
    replies: Seq<Reply>,
    login: Login,
    later: Seq<Reply>,
)
    requires
        confirmation.stage is OpenDatabase,
        login.stage is OpenDatabase,
        login.request.client_id is None,
        awaits_confirmation(
            world,
            confirmation.registration_token@,
            login.request.email@,
            login.request.password@,
        ),
        !world.has_email(login.request.email@),
        world.environment.contains_key("JWT_SECRET"@),
        lucky(begun(confirmation, world), replies),
        served(begun(confirmation, world), replies).outcome is Done,
        lucky(begun(login, served(begun(confirmation, world), replies).world), later),
    ensures
        match served(
            begun(login, served(begun(confirmation, world), replies).world),
            later,
        ).outcome {
            Outcome::Ask(_) => true,
            Outcome::Done(Ok(_)) => true,
            _ => false,
        },
{
    let email = login.request.email@;
    let password = login.request.password@;
    let after = served(begun(confirmation, world), replies).world;
    pending_registration_is_confirmed(confirmation, world, replies, email, password);
    let account = confirmed_account(
        world.pending[world.cache[confirmation.registration_token@]],
        new_user_id(world.users),
    );
    assert(after.users.contains(account));
    assert(password_right(after, email, password));
    right_password_is_let_in(login, after, later);
}

/// Who changes their password can sign in with the new one: once a change of
/// password has succeeded, a login with the new password succeeds unless a
/// service fails.
pub proof fn changed_password_signs_in(
    change: ChangePassword,
    world: World,
    replies: Seq<Reply>,
    login: Login,
    later: Seq<Reply>,
)
    requires
        change.stage is OpenDatabase,
        login.stage is OpenDatabase,
        login.request.client_id is None,
        login.request.email@ == change.request.email@,
        login.request.password@ == change.request.new_password@,
        world.environment.contains_key("JWT_SECRET"@),
        truthful(begun(change, world), replies),
        served(begun(change, world), replies).outcome matches Outcome::Done(Ok(_)),
        lucky(begun(login, served(begun(change, world), replies).world), later),
    ensures
        match served(begun(login, served(begun(change, world), replies).world), later).outcome {
            Outcome::Ask(_) => true,
            Outcome::Done(Ok(_)) => true,
            _ => false,
        },
{
    let email = login.request.email@;
    let after = served(begun(change, world), replies).world;
    new_password_is_taken(change, world, replies);
    changed_password_is_taken(change, world, after);
    let hash = choose|hash: Seq<char>|
        accepts(change.request.new_password@, hash) && after == (World {
            users: #[trigger] rehashed(world.users, email, hash),
            ..world
        });
    let a = choose|a: Account| #[trigger]
        world.users.contains(a) && takes(a, email, change.request.current_password@);
    assert(after.users.contains(with_hash(a, hash)));
    right_password_is_let_in(login, after, later);
}

/// The refresh token that was given for an application is good for a new access
/// token of its holder for that application, unless a service fails.
pub proof fn app_token_is_refreshed(
    given_for: GenerateAppTokens,
    given: Vec<String>,
    world: World,
    replies: Seq<Reply>,
    request: RefreshToken,
    later: Seq<Reply>,
)
    requires
        given_for.stage == (GenerateAppTokensStage::OpenDatabase { groups: given }),
        request.stage is OpenCache,
        truthful(begun(given_for, world), replies),
        served(begun(given_for, world), replies).outcome matches Outcome::Done(Ok(tokens))
            && request.request.refresh_token@ == tokens.refresh_token@,
        lucky(begun(request, served(begun(given_for, world), replies).world), later),
    ensures
        match served(
            begun(request, served(begun(given_for, world), replies).world),
            later,
        ).outcome {
            Outcome::Ask(_) => true,
            Outcome::Done(Ok(answer)) => token_for_holder(
                answer.access_token@,
                world.environment["JWT_SECRET"@],
                given_for.claims@,
                "access"@,
                Some(given_for.app_id@),
            ),
            Outcome::Done(Err(_)) => false,
        },
{
    let after = served(begun(given_for, world), replies).world;
    let tokens = served(begun(given_for, world), replies).outcome->Done_0->Ok_0;
    open_app_gives_tokens(given_for, given, world, replies);
    let secret = choose|secret: Seq<char>| #[trigger]
        app_tokens_given(given_for, texts(given@), world, after, tokens, secret);
    let claims = claims_of_jwt(tokens.refresh_token@, secret)->0;
    good_token_is_refreshed(request, after, later, secret, claims);
    match served(begun(request, after), later).outcome {
        Outcome::Done(Ok(answer)) => {
            let now = choose|now: i64| #[trigger]
                shown(now) && claims_of_jwt(answer.access_token@, secret) == Some(
                    refreshed_claims(claims, now),
                );
            assert(refreshed_claims(claims, now) == ClaimsView {
                token_type: "access"@,
                client_id: Some(given_for.app_id@),
                exp: (seconds(now) + 900) as usize,
                ..given_for.claims@
            });
        },
        _ => {},
    }
}

/// Whether no hash belongs to both of two passwords.
pub open spec fn apart(one: Seq<char>, other: Seq<char>) -> bool {
    forall|hash: Seq<char>| #[trigger] accepts(one, hash) ==> !accepts(other, hash)
}

/// Who changes their password cannot sign in with another one, such as the old:
/// once a change of password has succeeded, a login with a password that shares no
/// hash with the new one is kept out.
pub proof fn other_password_is_kept_out(
    change: ChangePassword,
    world: World,
    replies: Seq<Reply>,
    login: Login,
    later: Seq<Reply>,
)
    requires
        change.stage is OpenDatabase,
        login.stage is OpenDatabase,
        login.request.email@ == change.request.email@,
        apart(change.request.new_password@, login.request.password@),
        truthful(begun(change, world), replies),
        served(begun(change, world), replies).outcome matches Outcome::Done(Ok(_)),
        lucky(begun(login, served(begun(change, world), replies).world), later),
    ensures
        match served(begun(login, served(begun(change, world), replies).world), later).outcome {
            Outcome::Ask(_) => true,
            Outcome::Done(Err(f)) => f.status_code == 401,
            _ => false,
        },
{
    let after = served(begun(change, world), replies).world;
    new_password_is_taken(change, world, replies);
    changed_password_is_taken(change, world, after);
    assert(password_wrong(after, login.request.email@, login.request.password@));
    lucky_is_truthful(begun(login, after), later);
    wrong_password_is_kept_out(login, after, later);
}

/// The groups that a login takes for those of a user if no service fails: those
/// that are cached, none if what is cached cannot be read, and those of the database
/// if nothing is cached.
pub open spec fn current_groups(world: World, user: i64, groups: Seq<Seq<char>>) -> bool {
    let key = groups_key(user);
    if world.cache.contains_key(key) {
        match list_of_json(world.cache[key]) {
            Ok(list) => groups == list,
            Err(_) => groups.len() == 0,
        }
    } else {
        world.has_groups(user, groups)
    }
}

/// Whether an application is open to everybody who may be meant by an address, or
/// closed to all of them, by the groups that a login takes for theirs.
pub open spec fn door_is(
    world: World,
    email: Seq<char>,
    client_id: Seq<char>,
    open: bool,
) -> bool {
    forall|account: Account, groups: Seq<Seq<char>>|
        world.users.contains(account) && account.email == email && #[trigger] current_groups(
            world,
            account.id,
            groups,
        ) ==> open_door(world, client_id, groups) == open
}

/// How a login that names an application stands on its way if no service fails.
spec fn entering(
    asked: LoginRequest,
    before: World,
    app_id: String,
    open: bool,
    s: Standing<Login, IAMLoginResponse>,
) -> bool {
    let found = |user: User| before.users.contains(account_of(user)) && user.email_id@
        == asked.email@;
    &&& s.world == World { cache: s.world.cache, ..before }
    &&& match s.outcome {
        Outcome::Ask(h) => h.request == asked && match h.stage {
            LoginStage::OpenDatabase => s.world == before,
            LoginStage::OpenCache => s.world == before,
            LoginStage::FindUser => s.world == before,
            LoginStage::Verify { user, hash } => s.world == before && found(user)
                && user.password_hash == Some(hash),
            LoginStage::CachedGroups { user } => s.world == before && found(user),
            LoginStage::ReadGroups { user, json } => found(user) && before.cache.contains_pair(
                groups_key(user.id),
                json@,
            ),
            LoginStage::LoadGroups { user } => found(user) && !before.cache.contains_key(
                groups_key(user.id),
            ),
            LoginStage::WriteGroups { user, groups }
            | LoginStage::CacheGroups { user, groups, .. } => found(user)
                && !before.cache.contains_key(groups_key(user.id)) && before.has_groups(
                user.id,
                texts(groups@),
            ),
            LoginStage::Access { user, access } => {
                &&& found(user)
                &&& access.app_id == app_id
                &&& current_groups(before, user.id, groups_given(access.user_groups))
                &&& found_with_group(access, before)
            },
            LoginStage::AppSecret { .. } => open,
            LoginStage::AppAccessToken { secret, .. }
            | LoginStage::AppRefreshToken { secret, .. }
            | LoginStage::AppSession { secret, .. } => open && secret is Ok,
            LoginStage::Secret { .. } => false,
            LoginStage::AccessToken { secret, app_tokens, .. }
            | LoginStage::RefreshToken { secret, app_tokens, .. } => open && secret is Ok
                && app_tokens is Some,
            LoginStage::Session { app_tokens, .. } => open && app_tokens is Some,
        },
        Outcome::Done(Ok(answer)) => open && answer.app_tokens is Some,
        Outcome::Done(Err(f)) => !open && f.status_code == 403,
    }
}

proof fn entering_goes_on(
    asked: LoginRequest,
    before: World,
    app_id: String,
    open: bool,
    h: Login,
    now: World,
    reply: Reply,
)
    requires
        asked.client_id == Some(app_id),
        client_id_is_unique(before, app_id@),
        password_right(before, asked.email@, asked.password@),
        before.environment.contains_key("JWT_SECRET"@),
        door_is(before, asked.email@, app_id@, open),
        entering(asked, before, app_id, open, begun(h, now)),
        now.true_reply(h.asks(), reply),
        now.smooth_reply(h.asks(), reply),
    ensures
        entering(
            asked,
            before,
            app_id,
            open,
            Standing { outcome: h.next(reply), world: now.left_by(h.asks(), reply) },
        ),
{
    let s = Standing { outcome: h.next(reply), world: now.left_by(h.asks(), reply) };
    match (h.stage, reply) {
        (LoginStage::ReadGroups { user, json }, Reply::Texts(Ok(groups))) => {
            assert(groups_given(Some(groups)) =~= texts(groups@));
            assert(current_groups(before, user.id, groups_given(Some(groups))));
        },
        (LoginStage::ReadGroups { user, json }, Reply::Texts(Err(_))) => {
            assert(current_groups(before, user.id, groups_given(None)));
        },
        (LoginStage::CacheGroups { user, groups, .. }, Reply::Done(_)) => {
            assert(groups_given(Some(groups)) =~= texts(groups@));
            assert(current_groups(before, user.id, groups_given(Some(groups))));
        },
        (LoginStage::Access { user, access }, _) => {
            assert(now.apps == before.apps && now.groups == before.groups);
            access_is_settled(access, before, reply);
            assert(before.users.contains(account_of(user)));
            assert(current_groups(before, account_of(user).id, groups_given(access.user_groups)));
            assert(entering(asked, before, app_id, open, s));
        },
        _ => {},
    }
}

/// An application that is open to a user lets them in: with the right password, a
/// login that names it succeeds and comes with tokens for it, unless a service
/// fails. One that is closed to them does not: the login is forbidden, and comes
/// with no tokens. In both cases the database is as before.
pub proof fn open_app_alone_is_entered(
    asked: LoginRequest,
    login_begun: Login,
    world: World,
    replies: Seq<Reply>,
    app_id: String,
    open: bool,
)
    requires
        call_ensures(login, (asked,), login_begun),
        asked.client_id == Some(app_id),
        client_id_is_unique(world, app_id@),
        password_right(world, asked.email@, asked.password@),
        world.environment.contains_key("JWT_SECRET"@),
        door_is(world, asked.email@, app_id@, open),
        lucky(begun(login_begun, world), replies),
    ensures
        served(begun(login_begun, world), replies).world == (World {
            cache: served(begun(login_begun, world), replies).world.cache,
            ..world
        }),
        match served(begun(login_begun, world), replies).outcome {
            Outcome::Ask(_) => true,
            Outcome::Done(Ok(answer)) => open && answer.app_tokens is Some,
            Outcome::Done(Err(f)) => !open && f.status_code == 403,
        },
{
    assert forall|h: Login, now: World, reply: Reply|
        entering(asked, world, app_id, open, begun(h, now)) && #[trigger] luck()(
            now,
            h.asks(),
            reply,
        ) implies entering(
        asked,
        world,
        app_id,
        open,
        Standing { outcome: h.next(reply), world: now.left_by(h.asks(), reply) },
    ) by {
        entering_goes_on(asked, world, app_id, open, h, now, reply);
    }
    kept_throughout(
        begun(login_begun, world),
        replies,
        luck(),
        |s: Standing<Login, IAMLoginResponse>| entering(asked, world, app_id, open, s),
    );
}

/// A public application lets everybody in: with the right password, a login that
/// names an enabled application without a group succeeds and comes with tokens for
/// it, whatever the groups of the user, unless a service fails.
pub proof fn public_app_is_entered_by_everybody(
    asked: LoginRequest,
    login_begun: Login,
    world: World,
    replies: Seq<Reply>,
    app: AppRow,
)
    requires
        call_ensures(login, (asked,), login_begun),
        world.apps.contains(app),
        !app.app.disabled,
        app.app.group_id is None,
        asked.client_id matches Some(app_id) && app_id@ == app.app.client_id,
        client_id_is_unique(world, app.app.client_id),
        password_right(world, asked.email@, asked.password@),
        world.environment.contains_key("JWT_SECRET"@),
        lucky(begun(login_begun, world), replies),
    ensures
        match served(begun(login_begun, world), replies).outcome {
            Outcome::Ask(_) => true,
            Outcome::Done(Ok(answer)) => answer.app_tokens is Some,
            Outcome::Done(Err(_)) => false,
        },
{
    assert forall|groups: Seq<Seq<char>>| open_door(world, app.app.client_id, groups) by {
        assert(may_enter(world, app, groups));
    }
    let app_id = asked.client_id->0;
    assert(door_is(world, asked.email@, app_id@, true));
    open_app_alone_is_entered(asked, login_begun, world, replies, app_id, true);
}

/// How a request for tokens for an application stands on its way if no service
/// fails.
spec fn entering_app(
    app_id: String,
    groups: Vec<String>,
    world: World,
    s: Standing<GenerateAppTokens, LoginResponse>,
) -> bool {
    let open = open_door(world, app_id@, groups_given(Some(groups)));
    match s.outcome {
        Outcome::Ask(h) => s.world == world && h.app_id == app_id && match h.stage {
            GenerateAppTokensStage::OpenDatabase { groups: g } => g == groups,
            GenerateAppTokensStage::OpenCache { groups: g } => g == groups,
            GenerateAppTokensStage::Access { access } => access.app_id == app_id
                && access.user_groups == Some(groups) && found_with_group(access, world),
            GenerateAppTokensStage::Secret => open,
            GenerateAppTokensStage::AccessToken { secret } => open && secret is Ok,
            GenerateAppTokensStage::RefreshToken { secret, .. } => open && secret is Ok,
            GenerateAppTokensStage::Session { .. } => open,
        },
        Outcome::Done(Ok(_)) => open,
        Outcome::Done(Err(f)) => !open && f.status_code == 403 && s.world == world,
    }
}

/// Tokens for an application are given if it is open to a member of the groups of
/// the holder. Otherwise the request is forbidden and nothing changes. A service
/// that fails is the only exception.
pub proof fn open_app_alone_gives_tokens(
    app_id: String,
    claims: Claims,
    groups: GroupMemberships,
    request: GenerateAppTokens,
    world: World,
    replies: Seq<Reply>,
)
    requires
        call_ensures(generate_app_tokens, (app_id, claims, groups), request),
        client_id_is_unique(world, app_id@),
        world.environment.contains_key("JWT_SECRET"@),
        lucky(begun(request, world), replies),
    ensures
        match served(begun(request, world), replies).outcome {
            Outcome::Ask(_) => true,
            Outcome::Done(Ok(_)) => open_door(world, app_id@, groups_given(Some(groups.0))),
            Outcome::Done(Err(f)) => {
                &&& !open_door(world, app_id@, groups_given(Some(groups.0)))
                &&& f.status_code == 403
                &&& served(begun(request, world), replies).world == world
            },
        },
{
    assert forall|h: GenerateAppTokens, now: World, reply: Reply|
        entering_app(app_id, groups.0, world, begun(h, now)) && #[trigger] luck()(
            now,
            h.asks(),
            reply,
        ) implies entering_app(
        app_id,
        groups.0,
        world,
        Standing { outcome: h.next(reply), world: now.left_by(h.asks(), reply) },
    ) by {
        match (h.stage, reply) {
            (GenerateAppTokensStage::Access { access }, _) => {
                access_is_settled(access, world, reply);
                assert(entering_app(
                    app_id,
                    groups.0,
                    world,
                    Standing { outcome: h.next(reply), world: now.left_by(h.asks(), reply) },
                ));
            },
            _ => {},
        }
    }
    kept_throughout(
        begun(request, world),
        replies,
        luck(),
        |s: Standing<GenerateAppTokens, LoginResponse>|
            entering_app(app_id, groups.0, world, s),
    );
}

/// The holder of a token who asks for tokens for an application is who they are
/// made for, and the groups that they are in are those that count.
pub proof fn holder_asks_for_app_tokens(
    app_id: String,
    claims: Claims,
    groups: GroupMemberships,
    request: GenerateAppTokens,
    world: World,
    replies: Seq<Reply>,
)
    requires
        call_ensures(generate_app_tokens, (app_id, claims, groups), request),
        truthful(begun(request, world), replies),
    ensures
        served(begun(request, world), replies).outcome matches Outcome::Done(Ok(answer))
            ==> exists|secret: Seq<char>| #[trigger]
            pair_for_holder(world, answer, secret, claims@, Some(app_id@)),
{
    open_app_gives_tokens(request, groups.0, world, replies);
    match served(begun(request, world), replies).outcome {
        Outcome::Done(Ok(answer)) => {
            let secret = choose|secret: Seq<char>| #[trigger]
                app_tokens_given(
                    request,
                    texts(groups.0@),
                    world,
                    served(begun(request, world), replies).world,
                    answer,
                    secret,
                );
            assert(pair_for_holder(world, answer, secret, claims@, Some(app_id@)));
        },
        _ => {},
    }
}

/// What is cached on behalf of a session, the groups of a user as well as a refresh
/// token, is cached for an hour.
pub proof fn sessions_are_cached_for_an_hour(
    signing_in: Login,
    giving_tokens: GenerateAppTokens,
)
    ensures
        signing_in.asks() matches NeedView::Query(QueryView::CachePut { seconds, .. }) ==> seconds
            == 60 * 60,
        giving_tokens.asks() matches NeedView::Query(QueryView::CachePut { seconds, .. })
            ==> seconds == 60 * 60,
{
}

/// A logout is not refused unless a service fails, whether or not the token is
/// cached.
pub proof fn logout_is_not_refused(
    asked: LogoutRequest,
    claims: Claims,
    request: Logout,
    world: World,
    replies: Seq<Reply>,
)
    requires
        call_ensures(logout, (asked, claims), request),
        lucky(begun(request, world), replies),
    ensures
        match served(begun(request, world), replies).outcome {
            Outcome::Ask(_) => true,
            Outcome::Done(Ok(message)) => message == "Logged out successfully"@
                && !served(begun(request, world), replies).world.cache.contains_key(
                asked.refresh_token@,
            ),
            Outcome::Done(Err(_)) => false,
        },
{
    kept_throughout(
        begun(request, world),
        replies,
        luck(),
        |s: Standing<Logout, Seq<char>>|
            match s.outcome {
                Outcome::Ask(h) => s.world == world && h.request == asked,
                Outcome::Done(Ok(message)) => message == "Logged out successfully"@
                    && !s.world.cache.contains_key(asked.refresh_token@),
                Outcome::Done(Err(_)) => false,
            },
    );
}

/// The clearing of the cache is not refused unless a service fails, and forgets the
/// lists of the holder of the token that was shown.
pub proof fn clearing_is_not_refused(
    claims: Claims,
    request: ClearRedis,
    world: World,
    replies: Seq<Reply>,
)
    requires
        call_ensures(clear_redis, (claims,), request),
        lucky(begun(request, world), replies),
    ensures
        match served(begun(request, world), replies).outcome {
            Outcome::Ask(_) => true,
            Outcome::Done(Ok(message)) => {
                &&& message == "Successfully cleared Redis cache."@
                &&& served(begun(request, world), replies).world == (World {
                    cache: world.cache.remove("user_groups:"@ + claims.user_id@).remove(
                        "groups_owned:"@ + claims.user_id@,
                    ),
                    ..world
                })
            },
            Outcome::Done(Err(_)) => false,
        },
{
    kept_throughout(
        begun(request, world),
        replies,
        luck(),
        |s: Standing<ClearRedis, Seq<char>>|
            match s.outcome {
                Outcome::Ask(h) => true,
                Outcome::Done(Ok(message)) => message == "Successfully cleared Redis cache."@,
                Outcome::Done(Err(_)) => false,
            },
    );
    lucky_is_truthful(begun(request, world), replies);
    own_lists_are_forgotten(request, world, replies);
}

/// A token that was made at a time says what was ordered: whose it is, for which
/// application, and that it holds for a quarter of an hour if it is an access token
/// and for ten hours if it is a refresh token. No other type of token is made, and
/// none without a secret.
pub proof fn token_says_what_was_ordered(
    now: i64,
    email: &str,
    uid: &str,
    token_type: &str,
    f_name: Option<String>,
    l_name: Option<String>,
    m_name: Option<String>,
    c_id: Option<String>,
    secret: Result<String, String>,
    r: Result<String, ApiError>,
)
    requires
        shown(now),
        call_ensures(
            create_jwt_at,
            (now, email, uid, token_type, &f_name, &l_name, &m_name, &c_id, &secret),
            r,
        ),
    ensures
        match r {
            Ok(token) => {
                &&& token_type@ == "access"@ || token_type@ == "refresh"@
                &&& secret is Ok
                &&& claims_of_jwt(token@, secret->Ok_0@) == Some(
                    ClaimsView {
                        sub: email@,
                        exp: (seconds(now) + token_life(token_type@)) as usize,
                        user_id: uid@,
                        token_type: token_type@,
                        first_name: maybe_text(f_name),
                        last_name: maybe_text(l_name),
                        middle_name: maybe_text(m_name),
                        client_id: maybe_text(c_id),
                    },
                )
            },
            Err(e) => e.error && e.status_code == 500,
        },
{
}

/// A token that is made now says what was ordered as of a time that the clock gave.
pub proof fn token_made_now_says_what_was_ordered(
    email: &str,
    uid: &str,
    token_type: &str,
    f_name: Option<String>,
    l_name: Option<String>,
    m_name: Option<String>,
    c_id: Option<String>,
    secret: Result<String, String>,
    token: String,
)
    requires
        call_ensures(
            create_jwt,
            (email, uid, token_type, &f_name, &l_name, &m_name, &c_id, &secret),
            Ok(token),
        ),
    ensures
        token_type@ == "access"@ || token_type@ == "refresh"@,
        secret is Ok,
        exists|now: i64| #[trigger]
            shown(now) && clocked(now) && claims_of_jwt(token@, secret->Ok_0@) == Some(
                ClaimsView {
                    sub: email@,
                    exp: (seconds(now) + token_life(token_type@)) as usize,
                    user_id: uid@,
                    token_type: token_type@,
                    first_name: maybe_text(f_name),
                    last_name: maybe_text(l_name),
                    middle_name: maybe_text(m_name),
                    client_id: maybe_text(c_id),
                },
            ),
{
}

/// A token of one of the two types is made if there is a secret with which its claims
/// can be signed, and it is the one that is signed. Otherwise what is missing is told: a
/// type that does not exist, by its name, before a secret that is not there, before a
/// signing that failed.
pub proof fn token_is_made_unless_signing_fails(
    now: i64,
    email: &str,
    uid: &str,
    token_type: &str,
    f_name: Option<String>,
    l_name: Option<String>,
    m_name: Option<String>,
    c_id: Option<String>,
    secret: Result<String, String>,
    r: Result<String, ApiError>,
)
    requires
        shown(now),
        call_ensures(
            create_jwt_at,
            (now, email, uid, token_type, &f_name, &l_name, &m_name, &c_id, &secret),
            r,
        ),
    ensures
        !(token_type@ == "access"@ || token_type@ == "refresh"@) ==> (r matches Err(e) && e.message@
            == "create_jwt"@ + ": "@ + "invalid token_type requested"@ + ": "@ + text_debug(
            "expected 'access' or 'refresh', got '"@ + token_type@ + "'"@,
        )),
        token_type@ == "access"@ || token_type@ == "refresh"@ ==> match secret {
            Err(cause) => r matches Err(e) && e.message@ == "create_jwt"@ + ": "@
                + "reading JWT_SECRET env var"@ + ": "@ + cause@,
            Ok(key) => match jwt_of_claims(
                ClaimsView {
                    sub: email@,
                    exp: (seconds(now) + token_life(token_type@)) as usize,
                    user_id: uid@,
                    token_type: token_type@,
                    first_name: maybe_text(f_name),
                    last_name: maybe_text(l_name),
                    middle_name: maybe_text(m_name),
                    client_id: maybe_text(c_id),
                },
                key@,
            ) {
                Ok(token) => r matches Ok(made) && made@ == token,
                Err(cause) => r matches Err(e) && e.message@ == "create_jwt"@ + ": "@ + (
                "encoding '"@ + token_type@ + "' token"@) + ": "@ + cause,
            },
        },
{
}

} // verus!
