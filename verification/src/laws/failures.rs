//! Laws of failures: how they are reported, in whose name, and with which code.

use crate::error::{at, documented, documented_codes, failure, refusal, ApiError, Failure, Status};
use crate::laws::apps::groups_given;
use crate::laws::groups::is_action;
use crate::models::{Group, IAMLoginResponse, LoginResponse, RefreshTokenResponse, User};
use crate::outside::std_text::{integer_error, texts_debug};
use crate::protocol::{possible, Handler, NeedView, Outcome, QueryView, Reply, TaskView};
use crate::routes::account::{
    AcceptInvite, ChangePassword, ChangePasswordStage, PasswordResetRequest, Register,
    RegistrationConfirmation, ResetPassword, UpdateProfile, UpdateProfileStage,
};
use crate::routes::api_tokens::{
    CreateApiSessionToken, CreateApiToken, DeactivateApiToken, GetApiTokens,
    InteractiveSessionToken,
};
use crate::routes::apps::{known, AppAccess, CreateOrUpdateApp, GetAccessibleApps, GetApp};
use crate::routes::groups::{
    CreateGroup, GetMembers, GroupMembersIds, ManageMembership, ManageMembershipStage,
};
use crate::routes::sessions::{
    ClearRedis, GenerateAppTokens, GenerateAppTokensStage, Login, LoginStage, Logout, RefreshToken,
};
use crate::text::{decimal, i64_value};
use crate::world::is_error;
use vstd::prelude::*;

verus! {

/// The code of each status in HTTP.
pub open spec fn http_code(status: Status) -> u16 {
    match status {
        Status::BadRequest => 400,
        Status::Unauthorized => 401,
        Status::Forbidden => 403,
        Status::NotFound => 404,
        Status::Conflict => 409,
        Status::InternalServerError => 500,
        Status::ServiceUnavailable => 503,
    }
}

/// A failure says that it is one, has the code of its status, and names the handler
/// and what it was doing. If it has a cause, the cause follows.
pub proof fn failures_name_what_failed(
    status: Status,
    handler: Seq<char>,
    what: Seq<char>,
    cause: Seq<char>,
)
    ensures
        refusal(status, at(handler, what)) == (Failure {
            error: true,
            message: handler + ": "@ + what,
            status_code: http_code(status),
        }),
        failure(status, at(handler, what), cause) == (Failure {
            error: true,
            message: handler + ": "@ + what + ": "@ + cause,
            status_code: http_code(status),
        }),
        refusal(status, what) == (Failure {
            error: true,
            message: what,
            status_code: http_code(status),
        }),
        failure(status, what, cause) == (Failure {
            error: true,
            message: what + ": "@ + cause,
            status_code: http_code(status),
        }),
{
}

/// Each way to report an error has its own code and says what it was given.
pub proof fn errors_have_their_codes(
    status: Status,
    context: &str,
    err: &str,
    code: u16,
    plain: ApiError,
    caused: ApiError,
    not_found: ApiError,
    unauthorized: ApiError,
    forbidden: ApiError,
    bad_request: ApiError,
    conflict: ApiError,
    service_unavailable: ApiError,
    internal: ApiError,
)
    requires
        call_ensures(Status::code, (status,), code),
        call_ensures(ApiError::new, (status, context), plain),
        call_ensures(ApiError::from_err, (status, context, err), caused),
        call_ensures(ApiError::not_found, (context,), not_found),
        call_ensures(ApiError::unauthorized, (context,), unauthorized),
        call_ensures(ApiError::forbidden, (context,), forbidden),
        call_ensures(ApiError::bad_request, (context,), bad_request),
        call_ensures(ApiError::conflict, (context,), conflict),
        call_ensures(ApiError::service_unavailable, (context,), service_unavailable),
        call_ensures(ApiError::internal, (context, err), internal),
    ensures
        code == http_code(status),
        plain@ == (Failure { error: true, message: context@, status_code: http_code(status) }),
        caused@ == (Failure {
            error: true,
            message: context@ + ": "@ + err@,
            status_code: http_code(status),
        }),
        not_found@ == (Failure { error: true, message: context@, status_code: 404 }),
        unauthorized@ == (Failure { error: true, message: context@, status_code: 401 }),
        forbidden@ == (Failure { error: true, message: context@, status_code: 403 }),
        bad_request@ == (Failure { error: true, message: context@, status_code: 400 }),
        conflict@ == (Failure { error: true, message: context@, status_code: 409 }),
        service_unavailable@ == (Failure { error: true, message: context@, status_code: 503 }),
        internal@ == (Failure {
            error: true,
            message: context@ + ": "@ + err@,
            status_code: 500,
        }),
{
}

/// The codes that are documented are those of the statuses.
pub proof fn codes_of_statuses_are_documented(codes: Vec<u16>)
    requires
        call_ensures(documented_codes, (), codes),
    ensures
        codes@.no_duplicates(),
        forall|code: u16| #[trigger]
            codes@.contains(code) <==> exists|status: Status| #[trigger] http_code(status) == code,
{
    assert(http_code(Status::BadRequest) == 400);
    assert(http_code(Status::Unauthorized) == 401);
    assert(http_code(Status::Forbidden) == 403);
    assert(http_code(Status::NotFound) == 404);
    assert(http_code(Status::Conflict) == 409);
    assert(http_code(Status::InternalServerError) == 500);
    assert(http_code(Status::ServiceUnavailable) == 503);
    assert forall|code: u16| #[trigger]
        codes@.contains(code) <==> exists|status: Status| #[trigger] http_code(status) == code by {
        assert(codes@.contains(code) <==> documented(code));
    }
}

/// What a service that failed said.
pub open spec fn error_text(reply: Reply) -> Seq<char> {
    match reply {
        Reply::Done(Err(e)) => e@,
        Reply::Rows(Err(e)) => e@,
        Reply::Flag(Err(e)) => e@,
        Reply::Text(Err(e)) => e@,
        Reply::MaybeText(Err(e)) => e@,
        Reply::Texts(Err(e)) => e@,
        Reply::Id(Err(e)) => e@,
        Reply::MaybeId(Err(e)) => e@,
        Reply::Ids(Err(e)) => e@,
        Reply::User(Err(e)) => e@,
        Reply::MaybeUser(Err(e)) => e@,
        Reply::Group(Err(e)) => e@,
        Reply::MaybeGroup(Err(e)) => e@,
        Reply::Members(Err(e)) => e@,
        Reply::App(Err(e)) => e@,
        Reply::MaybeApp(Err(e)) => e@,
        Reply::Listings(Err(e)) => e@,
        Reply::ApiToken(Err(e)) => e@,
        Reply::ApiTokens(Err(e)) => e@,
        Reply::MaybeApiToken(Err(e)) => e@,
        Reply::Pending(Err(e)) => e@,
        Reply::Invite(Err(e)) => e@,
        Reply::Claims(Err(e)) => e@,
        _ => Seq::empty(),
    }
}

/// The code with which a request fails whose need was not met: the service is
/// unavailable if there is no connection or no message can be sent; what could not be
/// looked up is not found; anything else is a failure of the server.
pub open spec fn code_of_failure(need: NeedView) -> u16 {
    match need {
        NeedView::Query(QueryView::OpenDatabase)
        | NeedView::Query(QueryView::OpenCache)
        | NeedView::Query(QueryView::SendEmail { .. }) => 503,
        NeedView::Query(QueryView::UserByEmail(_))
        | NeedView::Query(QueryView::FindGroup(_))
        | NeedView::Query(QueryView::CacheText(_))
        | NeedView::Query(QueryView::CacheId(_))
        | NeedView::Query(QueryView::EnabledApp(_)) => 404,
        _ => 500,
    }
}

/// Whether an outcome is a failure with a code that ends in what the service said.
pub open spec fn failed_with<S, A>(outcome: Outcome<S, A>, code: u16, cause: Seq<char>) -> bool {
    outcome matches Outcome::Done(Err(f)) && f.error && f.status_code == code && exists|
        context: Seq<char>,
    | f.message == #[trigger] (context + ": "@ + cause)
}

/// Whether a handler fails if what it needs fails, and tells why.
pub open spec fn fails_if_need_fails<H: Handler>(handler: H, reply: Reply) -> bool {
    possible(handler.asks(), reply) && is_error(reply) ==> failed_with(
        handler.next(reply),
        code_of_failure(handler.asks()),
        error_text(reply),
    )
}

/// An account is not changed behind a service that failed: the request fails and tells
/// why. Only a token of a link that cannot be forgotten is passed over.
pub proof fn failing_service_fails_account_request(
    change: ChangePassword,
    register: Register,
    confirmation: RegistrationConfirmation,
    profile: UpdateProfile,
    link: PasswordResetRequest,
    reset: ResetPassword,
    acceptance: AcceptInvite,
    reply: Reply,
)
    ensures
        fails_if_need_fails(change, reply),
        fails_if_need_fails(register, reply),
        fails_if_need_fails(profile, reply),
        fails_if_need_fails(link, reply),
        confirmation.asks() matches NeedView::Query(QueryView::CacheDrop(_))
            || fails_if_need_fails(confirmation, reply),
        reset.asks() matches NeedView::Query(QueryView::CacheDrop(_)) || fails_if_need_fails(
            reset,
            reply,
        ),
        acceptance.asks() matches NeedView::Query(QueryView::CacheDrop(_)) || fails_if_need_fails(
            acceptance,
            reply,
        ),
        confirmation.asks() matches NeedView::Query(QueryView::CacheDrop(_)) && reply is Done ==> (
        confirmation.next(reply) is Ask && confirmation.next(reply) == confirmation.next(
            Reply::Done(Ok(())),
        )),
        reset.asks() matches NeedView::Query(QueryView::CacheDrop(_)) && reply is Done ==> (
        reset.next(reply) matches Outcome::Done(Ok(_)) && reset.next(reply) == reset.next(
            Reply::Done(Ok(())),
        )),
        acceptance.asks() matches NeedView::Query(QueryView::CacheDrop(_)) && reply is Done ==> (
        acceptance.next(reply) is Ask && acceptance.next(reply) == acceptance.next(
            Reply::Done(Ok(())),
        )),
{
}

/// A request for groups, API tokens or applications fails if a service fails, and tells
/// why.
pub proof fn failing_service_fails_directory_request(
    group: CreateGroup,
    members: GetMembers,
    ids: GroupMembersIds,
    membership: ManageMembership,
    token: CreateApiToken,
    exchange: CreateApiSessionToken,
    interactive: InteractiveSessionToken,
    tokens: GetApiTokens,
    deactivation: DeactivateApiToken,
    app: GetApp,
    apps: GetAccessibleApps,
    storing: CreateOrUpdateApp,
    reply: Reply,
)
    ensures
        fails_if_need_fails(group, reply),
        fails_if_need_fails(members, reply),
        fails_if_need_fails(ids, reply),
        fails_if_need_fails(membership, reply),
        fails_if_need_fails(token, reply),
        fails_if_need_fails(exchange, reply),
        fails_if_need_fails(interactive, reply),
        fails_if_need_fails(tokens, reply),
        fails_if_need_fails(deactivation, reply),
        fails_if_need_fails(app, reply),
        fails_if_need_fails(apps, reply),
        fails_if_need_fails(storing, reply),
{
}

/// Whether a need is one whose failure a session passes over for the time being: the
/// list of groups in the cache is only a shortcut, and a missing secret shows when a
/// token is to be made.
pub open spec fn passed_over(need: NeedView) -> bool {
    match need {
        NeedView::Query(QueryView::CacheMaybeText(_)) => true,
        NeedView::Query(QueryView::Variable(_)) => true,
        NeedView::Task(TaskView::ReadList(_)) => true,
        NeedView::Task(TaskView::WriteList(_)) => true,
        _ => false,
    }
}

/// A request of a session fails if a service fails, and tells why. Somebody who cannot
/// be found or whose password or token cannot be checked is unauthorized; an
/// application that cannot be found is forbidden; a token that cannot be made fails as
/// its making does. Only what is passed over does not fail a login or a request for
/// tokens, nor does a list of groups that cannot be cached.
pub proof fn failing_service_fails_session_request(
    login: Login,
    tokens: GenerateAppTokens,
    refresh: RefreshToken,
    logout: Logout,
    clearing: ClearRedis,
    reply: Reply,
)
    ensures
        fails_if_need_fails(logout, reply),
        fails_if_need_fails(clearing, reply),
        possible(refresh.asks(), reply) && is_error(reply) ==> match refresh.asks() {
            NeedView::Task(TaskView::CreateJwt(_)) => reply matches Reply::Token(Err(e))
                && refresh.next(reply) == Outcome::<
                RefreshToken,
                RefreshTokenResponse,
            >::Done(Err(e@)),
            NeedView::Task(TaskView::ReadClaims { .. }) => failed_with(
                refresh.next(reply),
                401,
                error_text(reply),
            ),
            _ => fails_if_need_fails(refresh, reply),
        },
        possible(login.asks(), reply) && is_error(reply) ==> match login.asks() {
            NeedView::Task(TaskView::CreateJwt(_)) => reply matches Reply::Token(Err(e))
                && login.next(reply) == Outcome::<
                Login,
                IAMLoginResponse,
            >::Done(Err(e@)),
            NeedView::Task(TaskView::Verify { .. })
            | NeedView::Query(QueryView::UserByEmail(_)) => failed_with(
                login.next(reply),
                401,
                error_text(reply),
            ),
            NeedView::Query(QueryView::EnabledApp(_)) => login.next(reply) matches Outcome::Done(
                Err(f),
            ) && f.status_code == 403,
            need => if passed_over(need) || login.stage is CacheGroups {
                login.next(reply) is Ask
            } else {
                failed_with(login.next(reply), code_of_failure(need), error_text(reply))
            },
        },
        possible(tokens.asks(), reply) && is_error(reply) ==> match tokens.asks() {
            NeedView::Task(TaskView::CreateJwt(_)) => reply matches Reply::Token(Err(e))
                && tokens.next(reply) == Outcome::<
                GenerateAppTokens,
                LoginResponse,
            >::Done(Err(e@)),
            NeedView::Query(QueryView::EnabledApp(_)) => tokens.next(reply) matches Outcome::Done(
                Err(f),
            ) && f.status_code == 403,
            need => if passed_over(need) {
                tokens.next(reply) is Ask
            } else {
                failed_with(tokens.next(reply), code_of_failure(need), error_text(reply))
            },
        },
{
}

/// Every handler reports its failures in its own name. Only those that make tokens
/// also pass on a failure to make one.
pub proof fn handlers_speak_in_their_own_names(name: Seq<char>)
    ensures
        ChangePassword::speaks_as(name) <==> name == "change_password"@,
        Register::speaks_as(name) <==> name == "register"@,
        RegistrationConfirmation::speaks_as(name) <==> name == "registeration_confirmation"@,
        UpdateProfile::speaks_as(name) <==> name == "update_profile"@,
        PasswordResetRequest::speaks_as(name) <==> name == "request_password_reset"@,
        ResetPassword::speaks_as(name) <==> name == "reset_password"@,
        AcceptInvite::speaks_as(name) <==> name == "accept_invite"@,
        CreateApiToken::speaks_as(name) <==> name == "create_api_token"@,
        CreateApiSessionToken::speaks_as(name) <==> name == "create_api_session_token"@,
        InteractiveSessionToken::speaks_as(name) <==> name
            == "create_api_session_token_interactive"@,
        GetApiTokens::speaks_as(name) <==> name == "get_api_tokens_by_group"@,
        DeactivateApiToken::speaks_as(name) <==> name == "deactivate_api_token"@,
        GetApp::speaks_as(name) <==> name == "get_app_by_client_id"@,
        GetAccessibleApps::speaks_as(name) <==> name == "get_accessible_apps"@,
        CreateOrUpdateApp::speaks_as(name) <==> name == "create_or_update_app"@,
        CreateGroup::speaks_as(name) <==> name == "create_group"@,
        GetMembers::speaks_as(name) <==> name == "get_members"@,
        GroupMembersIds::speaks_as(name) <==> name == "fetch_group_members_ids"@,
        ManageMembership::speaks_as(name) <==> name == "manage_membership"@,
        Logout::speaks_as(name) <==> name == "logout"@,
        ClearRedis::speaks_as(name) <==> name == "clear_redis"@,
        Login::speaks_as(name) <==> name == "login"@ || name == "create_jwt"@,
        RefreshToken::speaks_as(name) <==> name == "refresh_token"@ || name == "create_jwt"@,
        GenerateAppTokens::speaks_as(name) <==> name == "generate_app_tokens"@ || name
            == "create_jwt"@,
{
}

/// Whether an outcome is a refusal with a code, by a handler, for a reason.
pub open spec fn refused_with<S, A>(
    outcome: Outcome<S, A>,
    code: u16,
    handler: Seq<char>,
    reason: Seq<char>,
) -> bool {
    outcome == Outcome::<S, A>::Done(
        Err(Failure { error: true, message: handler + ": "@ + reason, status_code: code }),
    )
}

/// A login is refused with the reason: an account without a password, a wrong password,
/// or an application that is not open to the user, with the groups that were taken for
/// theirs.
pub proof fn refused_login_says_why(login: Login, user: User, hash: String, access: AppAccess)
    ensures
        login.stage is FindUser && user.password_hash is None ==> refused_with(
            login.next(Reply::User(Ok(user))),
            401,
            "login"@,
            "user '"@ + user.email_id@ + "' has no password hash set"@,
        ),
        login.stage == (LoginStage::Verify { user, hash }) ==> refused_with(
            login.next(Reply::Flag(Ok(false))),
            401,
            "login"@,
            "invalid password for user '"@ + user.email_id@ + "'"@,
        ),
        login.stage == (LoginStage::Access { user, access }) && access.stage is MatchGroups
            ==> refused_with(
            login.next(Reply::MaybeId(Ok(None))),
            403,
            "login"@,
            "user '"@ + user.email_id@ + "' does not have access to app '"@ + access.app_id@
                + "' (groups: "@ + texts_debug(groups_given(access.user_groups)) + ")"@,
        ),
{
    assert(groups_given(access.user_groups) == known(access.user_groups));
}

/// A request for tokens for an application that is not open to the holder is refused
/// with that reason.
pub proof fn refused_tokens_say_why(tokens: GenerateAppTokens, access: AppAccess)
    ensures
        tokens.stage == (GenerateAppTokensStage::Access { access }) && access.stage is MatchGroups
            ==> refused_with(
            tokens.next(Reply::MaybeId(Ok(None))),
            403,
            "generate_app_tokens"@,
            "user '"@ + tokens.claims.sub@ + "' does not have access to app '"@ + tokens.app_id@
                + "'"@,
        ),
{
}

/// A change of password with a wrong current password is refused with that reason, and
/// one for an account without a password fails.
pub proof fn refused_change_says_why(change: ChangePassword, user: User, hash: String)
    ensures
        change.stage == (ChangePasswordStage::Verify { user, hash }) ==> refused_with(
            change.next(Reply::Flag(Ok(false))),
            401,
            "change_password"@,
            "current password incorrect for user '"@ + user.email_id@ + "'"@,
        ),
        change.stage is FindUser && user.password_hash is None ==> (change.next(
            Reply::User(Ok(user)),
        ) matches Outcome::Done(Err(f)) && f.status_code == 500 && f.message == "change_password"@
            + ": "@ + ("user '"@ + user.email_id@ + "' has no password hash set"@) + ": "@
            + "\"password_hash column was NULL\""@),
{
}

/// What is not there is refused as not found, by its name.
pub proof fn not_found_says_what(
    profile: UpdateProfile,
    id: i64,
    members: GetMembers,
    ids: GroupMembersIds,
    interactive: InteractiveSessionToken,
    tokens: GetApiTokens,
    deactivation: DeactivateApiToken,
)
    ensures
        profile.stage == (UpdateProfileStage::Store { id }) ==> refused_with(
            profile.next(Reply::Rows(Ok(0))),
            404,
            "update_profile"@,
            "no user found with id="@ + decimal(id as int),
        ),
        members.stage is FindGroup ==> refused_with(
            members.next(Reply::MaybeId(Ok(None))),
            404,
            "get_members"@,
            "group '"@ + members.group_param@ + "' not found"@,
        ),
        ids.stage is FindGroup ==> refused_with(
            ids.next(Reply::MaybeId(Ok(None))),
            404,
            "fetch_group_members_ids"@,
            "group '"@ + ids.group_identifier@ + "' not found"@,
        ),
        interactive.stage is FindGroup ==> refused_with(
            interactive.next(Reply::MaybeGroup(Ok(None))),
            404,
            "create_api_session_token_interactive"@,
            "group '"@ + interactive.group_identifier@ + "' not found"@,
        ),
        tokens.stage is FindGroup ==> refused_with(
            tokens.next(Reply::MaybeGroup(Ok(None))),
            404,
            "get_api_tokens_by_group"@,
            "group '"@ + tokens.group_identifier@ + "' not found"@,
        ),
        deactivation.stage is FindToken ==> refused_with(
            deactivation.next(Reply::ApiToken(Ok(None))),
            404,
            "deactivate_api_token"@,
            "token id="@ + decimal(deactivation.token_id as int) + " not found"@,
        ),
{
}

/// What is there already is refused with a conflict, by its name; an API token that is
/// not active as unauthorized; and an action that does not exist as a bad request, by
/// its name.
pub proof fn refusals_say_why(
    register: Register,
    user: User,
    making: CreateGroup,
    group: Group,
    exchange: CreateApiSessionToken,
    membership: ManageMembership,
)
    ensures
        register.stage is FindUser ==> refused_with(
            register.next(Reply::MaybeUser(Ok(Some(user)))),
            409,
            "register"@,
            "a user with email '"@ + register.request.email@ + "' already exists"@,
        ),
        making.stage is FindGroup ==> refused_with(
            making.next(Reply::MaybeGroup(Ok(Some(group)))),
            409,
            "create_group"@,
            "a group with identifier '"@ + making.request.id@ + "' already exists"@,
        ),
        exchange.stage is FindToken ==> refused_with(
            exchange.next(Reply::MaybeApiToken(Ok(None))),
            401,
            "create_api_session_token"@,
            "API token not found or inactive"@,
        ),
        membership.stage == (ManageMembershipStage::FindUser { group }) && !is_action(
            membership.action@,
        ) ==> refused_with(
            membership.next(Reply::User(Ok(user))),
            400,
            "manage_membership"@,
            "unknown action '"@ + membership.action@
                + "' (expected add-member, add-admin, or remove)"@,
        ),
{
}

/// The holder of a token whose id is no number cannot change a profile nor make a group:
/// both fail and say so, with what is wrong with the number.
pub proof fn unreadable_id_is_told(profile: UpdateProfile, making: CreateGroup, group: Group)
    ensures
        profile.stage is OpenDatabase && i64_value(profile.claims.user_id@) is None
            ==> failed_with(
            profile.next(Reply::Done(Ok(()))),
            500,
            integer_error(profile.claims.user_id@),
        ),
        making.stage is Insert && i64_value(making.claims.user_id@) is None ==> failed_with(
            making.next(Reply::Group(Ok(group))),
            500,
            integer_error(making.claims.user_id@),
        ),
{
}

/// A list of groups that could not be written is cached as the empty text.
pub proof fn unwritten_groups_are_cached_as_nothing(
    login: Login,
    user: User,
    groups: Vec<String>,
    e: String,
)
    requires
        login.stage == (LoginStage::CacheGroups { user, groups, written_groups: Err(e) }),
    ensures
        login.asks() == NeedView::Query(
            QueryView::CachePut {
                key: "user_groups:"@ + decimal(user.id as int),
                value: ""@,
                seconds: 3600,
            },
        ),
{
}

} // verus!
