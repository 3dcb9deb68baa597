//! Sessions: how a user signs in and out, and the tokens that they get.

use crate::error::{
    Status, at, fail, failure, failure_is_reported, refusal, refusal_is_reported, refuse,
};
use crate::models::{
    APIClaims, Claims, GroupMemberships, IAMLoginResponse, LoginRequest, LoginResponse,
    LogoutRequest, MessageResponse, RefreshTokenRequest, RefreshTokenResponse, User,
    ValidateAPITokenResponse, ValidateTokenResponse,
};
use crate::outside::json::{
    JsonView, json_object, json_of, json_put_integer, json_put_text, json_text, no_fields,
};
use crate::routes::apps::{
    AccessProgress, AppAccess, AppAccessStage, known, known_groups, user_has_access_to_app,
};
use crate::tokens::{holder_order, order_for_holder, order_for_user, user_order};
use crate::outside::std_text::{debug_of_texts, texts_debug};
use crate::protocol::{
    Handler, Need, NeedView, Outcome, Progress, Query, QueryView, Reply, Task, TaskView,
    outcome, token_failures_are_reported,
};
use crate::text::{copy_maybe, copy_texts, decimal, integer_text, maybe_text, same_text, texts};
use vstd::prelude::*;

verus! {

/// What is cached with the refresh token of a user.
pub open spec fn base_session(user_id: i64) -> Seq<char> {
    json_of(no_fields().insert("user_id"@, JsonView::Number(user_id as int)))
}

/// What is cached with the refresh token of a user for an application.
pub open spec fn app_session(user_id: JsonView, app_id: Seq<char>) -> Seq<char> {
    json_of(no_fields().insert("user_id"@, user_id).insert("app_id"@, JsonView::Text(app_id)))
}

/// Writes what is cached with the refresh token of a user.
pub fn write_base_session(user_id: i64) -> (r: String)
    ensures
        r@ == base_session(user_id),
{
    let mut session = json_object();
    json_put_integer(&mut session, "user_id", user_id);
    json_text(session)
}

/// Writes what is cached with the refresh token of a user for an application.
pub fn write_app_session(user_id: i64, app_id: &str) -> (r: String)
    ensures
        r@ == app_session(JsonView::Number(user_id as int), app_id@),
{
    let mut session = json_object();
    json_put_integer(&mut session, "user_id", user_id);
    json_put_text(&mut session, "app_id", app_id);
    json_text(session)
}

/// Writes what is cached with the refresh token for an application of the holder
/// of a token.
pub fn write_holder_session(user_id: &str, app_id: &str) -> (r: String)
    ensures
        r@ == app_session(JsonView::Text(user_id@), app_id@),
{
    let mut session = json_object();
    json_put_text(&mut session, "user_id", user_id);
    json_put_text(&mut session, "app_id", app_id);
    json_text(session)
}

/// What is cached for a list of groups; nothing but an empty text if it could not
/// be written.
pub open spec fn written(json: Result<String, String>) -> Seq<char> {
    match json {
        Ok(text) => text@,
        Err(_) => ""@,
    }
}

fn written_text(json: &Result<String, String>) -> (r: String)
    ensures
        r@ == written(*json),
{
    match json {
        Ok(text) => text.clone(),
        Err(_) => "".to_owned(),
    }
}

impl Login {
    /// Where a login goes on once the groups of the user are known: to the
    /// application that the request names, or to the tokens of the user.
    pub open spec fn after_groups(
        self,
        user: User,
        user_groups: Option<Vec<String>>,
    ) -> Outcome<Login, IAMLoginResponse> {
        match self.request.client_id {
            Some(app_id) => Outcome::Ask(
                Login {
                    stage: LoginStage::Access {
                        user,
                        access: AppAccess { app_id, user_groups, stage: AppAccessStage::FindApp },
                    },
                    ..self
                },
            ),
            None => Outcome::Ask(
                Login { stage: LoginStage::Secret { user }, ..self },
            ),
        }
    }
}

fn continue_login(request: LoginRequest, user: User, user_groups: Option<Vec<String>>) -> (r:
    Progress<Login, IAMLoginResponse>)
    ensures
        forall|stage: LoginStage|
            outcome(r) == #[trigger] (Login { request, stage }).after_groups(user, user_groups),
{
    match copy_maybe(&request.client_id) {
        Some(app_id) => Progress::Ask(
            Login {
                request,
                stage: LoginStage::Access {
                    user,
                    access: user_has_access_to_app(app_id, user_groups),
                },
            },
        ),
        None => Progress::Ask(Login { request, stage: LoginStage::Secret { user } }),
    }
}

/// A login on its way.
pub struct Login {
    pub request: LoginRequest,
    pub stage: LoginStage,
}

/// How far [`Login`] has come: what it waits for.
pub enum LoginStage {
    OpenDatabase,
    OpenCache,
    FindUser,
    Verify { user: User, hash: String },
    CachedGroups { user: User },
    ReadGroups { user: User, json: String },
    LoadGroups { user: User },
    WriteGroups { user: User, groups: Vec<String> },
    CacheGroups { user: User, groups: Vec<String>, written_groups: Result<String, String> },
    Access { user: User, access: AppAccess },
    AppSecret { user: User, app_id: String },
    AppAccessToken { user: User, app_id: String, secret: Result<String, String> },
    AppRefreshToken {
        user: User,
        app_id: String,
        secret: Result<String, String>,
        access_token: String,
    },
    AppSession {
        user: User,
        app_id: String,
        secret: Result<String, String>,
        access_token: String,
        refresh_token: String,
    },
    Secret { user: User },
    AccessToken { user: User, secret: Result<String, String>, app_tokens: Option<LoginResponse> },
    RefreshToken {
        user: User,
        secret: Result<String, String>,
        app_tokens: Option<LoginResponse>,
        access_token: String,
    },
    Session {
        user: User,
        app_tokens: Option<LoginResponse>,
        access_token: String,
        refresh_token: String,
    },
}

/// Starts a login: the password is checked, the groups of the user are taken from
/// the cache or the database, access to the application that the request names is
/// checked, and an access and a refresh token are made, for that application and
/// for the user. Each refresh token is cached for an hour.
pub fn login(request: LoginRequest) -> (r: Login)
    ensures
        r == (Login { request, stage: LoginStage::OpenDatabase }),
{
    Login { request, stage: LoginStage::OpenDatabase }
}

impl Handler for Login {
    type Answer = IAMLoginResponse;

    open spec fn asks(&self) -> NeedView {
        match self.stage {
            LoginStage::OpenDatabase => NeedView::Query(QueryView::OpenDatabase),
            LoginStage::OpenCache => NeedView::Query(QueryView::OpenCache),
            LoginStage::FindUser => NeedView::Query(QueryView::UserByEmail(self.request.email@)),
            LoginStage::Verify { hash, .. } => NeedView::Task(
                TaskView::Verify { password: self.request.password@, hash: hash@ },
            ),
            LoginStage::CachedGroups { user } => NeedView::Query(
                QueryView::CacheMaybeText("user_groups:"@ + decimal(user.id as int)),
            ),
            LoginStage::ReadGroups { json, .. } => NeedView::Task(TaskView::ReadList(json@)),
            LoginStage::LoadGroups { user } => NeedView::Query(QueryView::GroupsOfUser(user.id)),
            LoginStage::WriteGroups { groups, .. } => NeedView::Task(
                TaskView::WriteList(texts(groups@)),
            ),
            LoginStage::CacheGroups { user, written_groups, .. } => NeedView::Query(
                QueryView::CachePut {
                    key: "user_groups:"@ + decimal(user.id as int),
                    value: written(written_groups),
                    seconds: 3600,
                },
            ),
            LoginStage::Access { access, .. } => NeedView::Query(access.asks()),
            LoginStage::AppSecret { .. } => NeedView::Query(QueryView::Variable("JWT_SECRET"@)),
            LoginStage::AppAccessToken { user, app_id, secret } => NeedView::Task(
                TaskView::CreateJwt(user_order(user, "access"@, Some(app_id@), secret)),
            ),
            LoginStage::AppRefreshToken { user, app_id, secret, .. } => NeedView::Task(
                TaskView::CreateJwt(user_order(user, "refresh"@, Some(app_id@), secret)),
            ),
            LoginStage::AppSession { user, app_id, refresh_token, .. } => NeedView::Query(
                QueryView::CachePut {
                    key: refresh_token@,
                    value: app_session(JsonView::Number(user.id as int), app_id@),
                    seconds: 3600,
                },
            ),
            LoginStage::Secret { .. } => NeedView::Query(QueryView::Variable("JWT_SECRET"@)),
            LoginStage::AccessToken { user, secret, .. } => NeedView::Task(
                TaskView::CreateJwt(user_order(user, "access"@, None, secret)),
            ),
            LoginStage::RefreshToken { user, secret, .. } => NeedView::Task(
                TaskView::CreateJwt(user_order(user, "refresh"@, None, secret)),
            ),
            LoginStage::Session { user, refresh_token, .. } => NeedView::Query(
                QueryView::CachePut {
                    key: refresh_token@,
                    value: base_session(user.id),
                    seconds: 3600,
                },
            ),
        }
    }

    open spec fn next(self, reply: Reply) -> Outcome<Self, IAMLoginResponse> {
        match (self.stage, reply) {
            (LoginStage::OpenDatabase, Reply::Done(Ok(_))) => Outcome::Ask(
                Login { stage: LoginStage::OpenCache, ..self },
            ),
            (LoginStage::OpenDatabase, Reply::Done(Err(e))) => Outcome::Done(
                Err(
                    failure(
                        Status::ServiceUnavailable,
                        at("login"@, "failed to get DB connection"@),
                        e@,
                    ),
                ),
            ),
            (LoginStage::OpenCache, Reply::Done(Ok(_))) => Outcome::Ask(
                Login { stage: LoginStage::FindUser, ..self },
            ),
            (LoginStage::OpenCache, Reply::Done(Err(e))) => Outcome::Done(
                Err(
                    failure(
                        Status::ServiceUnavailable,
                        at("login"@, "failed to get Redis connection"@),
                        e@,
                    ),
                ),
            ),
            (LoginStage::FindUser, Reply::User(Ok(user))) => match user.password_hash {
                Some(hash) => Outcome::Ask(
                    Login { stage: LoginStage::Verify { user, hash }, ..self },
                ),
                None => Outcome::Done(
                    Err(
                        refusal(
                            Status::Unauthorized,
                            at(
                                "login"@,
                                "user '"@ + user.email_id@ + "' has no password hash set"@,
                            ),
                        ),
                    ),
                ),
            },
            (LoginStage::FindUser, Reply::User(Err(e))) => Outcome::Done(
                Err(
                    failure(
                        Status::Unauthorized,
                        at("login"@, "user not found for email '"@ + self.request.email@ + "'"@),
                        e@,
                    ),
                ),
            ),
            (LoginStage::Verify { user, .. }, Reply::Flag(Ok(valid))) => if valid {
                Outcome::Ask(Login { stage: LoginStage::CachedGroups { user }, ..self })
            } else {
                Outcome::Done(
                    Err(
                        refusal(
                            Status::Unauthorized,
                            at("login"@, "invalid password for user '"@ + user.email_id@ + "'"@),
                        ),
                    ),
                )
            },
            (LoginStage::Verify { user, .. }, Reply::Flag(Err(e))) => Outcome::Done(
                Err(
                    failure(
                        Status::Unauthorized,
                        at("login"@, "bcrypt verify error for user '"@ + user.email_id@ + "'"@),
                        e@,
                    ),
                ),
            ),
            (LoginStage::CachedGroups { user }, Reply::MaybeText(Ok(Some(json)))) => Outcome::Ask(
                Login { stage: LoginStage::ReadGroups { user, json }, ..self },
            ),
            (LoginStage::CachedGroups { user }, Reply::MaybeText(Ok(None))) => Outcome::Ask(
                Login { stage: LoginStage::LoadGroups { user }, ..self },
            ),
            (LoginStage::CachedGroups { user }, Reply::MaybeText(Err(_))) => self.after_groups(
                user,
                None,
            ),
            (LoginStage::ReadGroups { user, .. }, Reply::Texts(Ok(groups))) => self.after_groups(
                user,
                Some(groups),
            ),
            (LoginStage::ReadGroups { user, .. }, Reply::Texts(Err(_))) => self.after_groups(
                user,
                None,
            ),
            (LoginStage::LoadGroups { user }, Reply::Texts(Ok(groups))) => Outcome::Ask(
                Login { stage: LoginStage::WriteGroups { user, groups }, ..self },
            ),
            (LoginStage::LoadGroups { user }, Reply::Texts(Err(e))) => Outcome::Done(
                Err(
                    failure(
                        Status::InternalServerError,
                        at("login"@, "loading groups from DB for user "@ + decimal(user.id as int)),
                        e@,
                    ),
                ),
            ),
            (LoginStage::WriteGroups { user, groups }, Reply::Text(written_groups)) => Outcome::Ask(
                Login { stage: LoginStage::CacheGroups { user, groups, written_groups }, ..self },
            ),
            (LoginStage::CacheGroups { user, groups, .. }, Reply::Done(_)) => self.after_groups(
                user,
                Some(groups),
            ),
            (LoginStage::Access { user, access }, reply) => match access.next(reply) {
                AccessProgress::Ask(access) => Outcome::Ask(
                    Login { stage: LoginStage::Access { user, access }, ..self },
                ),
                AccessProgress::Known { access, allowed } => if allowed {
                    Outcome::Ask(
                        Login {
                            stage: LoginStage::AppSecret { user, app_id: access.app_id },
                            ..self
                        },
                    )
                } else {
                    Outcome::Done(
                        Err(
                            refusal(
                                Status::Forbidden,
                                at(
                                    "login"@,
                                    "user '"@ + user.email_id@ + "' does not have access to app '"@
                                        + access.app_id@ + "' (groups: "@
                                        + texts_debug(known(access.user_groups)) + ")"@,
                                ),
                            ),
                        ),
                    )
                },
                AccessProgress::Failed { access, cause } => Outcome::Done(
                    Err(
                        failure(
                            Status::InternalServerError,
                            at(
                                "login"@,
                                "checking app access for user '"@ + user.email_id@ + "' / app '"@
                                    + access.app_id@ + "'"@,
                            ),
                            cause@,
                        ),
                    ),
                ),
            },
            (LoginStage::AppSecret { user, app_id }, Reply::Text(secret)) => Outcome::Ask(
                Login { stage: LoginStage::AppAccessToken { user, app_id, secret }, ..self },
            ),
            (
                LoginStage::AppAccessToken { user, app_id, secret },
                Reply::Token(Ok(access_token)),
            ) => Outcome::Ask(
                Login {
                    stage: LoginStage::AppRefreshToken { user, app_id, secret, access_token },
                    ..self
                },
            ),
            (LoginStage::AppAccessToken { .. }, Reply::Token(Err(e))) => Outcome::Done(Err(e@)),
            (
                LoginStage::AppRefreshToken { user, app_id, secret, access_token },
                Reply::Token(Ok(refresh_token)),
            ) => Outcome::Ask(
                Login {
                    stage: LoginStage::AppSession {
                        user,
                        app_id,
                        secret,
                        access_token,
                        refresh_token,
                    },
                    ..self
                },
            ),
            (LoginStage::AppRefreshToken { .. }, Reply::Token(Err(e))) => Outcome::Done(Err(e@)),
            (
                LoginStage::AppSession { user, secret, access_token, refresh_token, .. },
                Reply::Done(Ok(_)),
            ) => Outcome::Ask(
                Login {
                    stage: LoginStage::AccessToken {
                        user,
                        secret,
                        app_tokens: Some(LoginResponse { access_token, refresh_token }),
                    },
                    ..self
                },
            ),
            (LoginStage::AppSession { app_id, .. }, Reply::Done(Err(e))) => Outcome::Done(
                Err(
                    failure(
                        Status::InternalServerError,
                        at("login"@, "caching app session for app '"@ + app_id@ + "'"@),
                        e@,
                    ),
                ),
            ),
            (LoginStage::Secret { user }, Reply::Text(secret)) => Outcome::Ask(
                Login { stage: LoginStage::AccessToken { user, secret, app_tokens: None }, ..self },
            ),
            (
                LoginStage::AccessToken { user, secret, app_tokens },
                Reply::Token(Ok(access_token)),
            ) => Outcome::Ask(
                Login {
                    stage: LoginStage::RefreshToken { user, secret, app_tokens, access_token },
                    ..self
                },
            ),
            (LoginStage::AccessToken { .. }, Reply::Token(Err(e))) => Outcome::Done(Err(e@)),
            (
                LoginStage::RefreshToken { user, app_tokens, access_token, .. },
                Reply::Token(Ok(refresh_token)),
            ) => Outcome::Ask(
                Login {
                    stage: LoginStage::Session { user, app_tokens, access_token, refresh_token },
                    ..self
                },
            ),
            (LoginStage::RefreshToken { .. }, Reply::Token(Err(e))) => Outcome::Done(Err(e@)),
            (
                LoginStage::Session { app_tokens, access_token, refresh_token, .. },
                Reply::Done(Ok(_)),
            ) => Outcome::Done(
                Ok(
                    IAMLoginResponse {
                        app_tokens,
                        iam_tokens: LoginResponse { access_token, refresh_token },
                    },
                ),
            ),
            (LoginStage::Session { user, .. }, Reply::Done(Err(e))) => Outcome::Done(
                Err(
                    failure(
                        Status::InternalServerError,
                        at(
                            "login"@,
                            "caching base IAM session for user '"@ + user.email_id@ + "'"@,
                        ),
                        e@,
                    ),
                ),
            ),
            _ => Outcome::Ask(self),
        }
    }

    open spec fn rank(&self) -> nat {
        match self.stage {
            LoginStage::OpenDatabase => 20,
            LoginStage::OpenCache => 19,
            LoginStage::FindUser => 18,
            LoginStage::Verify { .. } => 17,
            LoginStage::CachedGroups { .. } => 16,
            LoginStage::ReadGroups { .. } => 15,
            LoginStage::LoadGroups { .. } => 14,
            LoginStage::WriteGroups { .. } => 13,
            LoginStage::CacheGroups { .. } => 12,
            LoginStage::Access { access, .. } => 9 + access.rank(),
            LoginStage::AppSecret { .. } => 8,
            LoginStage::AppAccessToken { .. } => 7,
            LoginStage::AppRefreshToken { .. } => 6,
            LoginStage::AppSession { .. } => 5,
            LoginStage::Secret { .. } => 4,
            LoginStage::AccessToken { .. } => 3,
            LoginStage::RefreshToken { .. } => 2,
            LoginStage::Session { .. } => 1,
        }
    }

    open spec fn speaks_as(name: Seq<char>) -> bool {
        name == "login"@ || name == "create_jwt"@
    }

    proof fn moves(self, reply: Reply) {
    }

    proof fn ignores(self, reply: Reply) {
    }

    proof fn reports(self, reply: Reply) {
        broadcast use refusal_is_reported, failure_is_reported;

        assert(Self::speaks_as("login"@));
        assert(Self::speaks_as("create_jwt"@));
        token_failures_are_reported(self.asks(), reply);
    }

    fn need(&self) -> (r: Need) {
        match &self.stage {
            LoginStage::OpenDatabase => Need::Query(Query::OpenDatabase),
            LoginStage::OpenCache => Need::Query(Query::OpenCache),
            LoginStage::FindUser => Need::Query(Query::UserByEmail(self.request.email.clone())),
            LoginStage::Verify { hash, .. } => Need::Task(
                Task::Verify { password: self.request.password.clone(), hash: hash.clone() },
            ),
            LoginStage::CachedGroups { user } => Need::Query(
                Query::CacheMaybeText(
                    "user_groups:".to_owned().concat(integer_text(user.id).as_str()),
                ),
            ),
            LoginStage::ReadGroups { json, .. } => Need::Task(Task::ReadList(json.clone())),
            LoginStage::LoadGroups { user } => Need::Query(Query::GroupsOfUser(user.id)),
            LoginStage::WriteGroups { groups, .. } => Need::Task(
                Task::WriteList(copy_texts(groups)),
            ),
            LoginStage::CacheGroups { user, written_groups, .. } => Need::Query(
                Query::CachePut {
                    key: "user_groups:".to_owned().concat(integer_text(user.id).as_str()),
                    value: written_text(written_groups),
                    seconds: 3600,
                },
            ),
            LoginStage::Access { access, .. } => Need::Query(access.need()),
            LoginStage::AppSecret { .. } => Need::Query(Query::Variable("JWT_SECRET".to_owned())),
            LoginStage::AppAccessToken { user, app_id, secret } => Need::Task(
                Task::CreateJwt(order_for_user(user, "access", Some(app_id.clone()), secret)),
            ),
            LoginStage::AppRefreshToken { user, app_id, secret, .. } => Need::Task(
                Task::CreateJwt(order_for_user(user, "refresh", Some(app_id.clone()), secret)),
            ),
            LoginStage::AppSession { user, app_id, refresh_token, .. } => Need::Query(
                Query::CachePut {
                    key: refresh_token.clone(),
                    value: write_app_session(user.id, app_id.as_str()),
                    seconds: 3600,
                },
            ),
            LoginStage::Secret { .. } => Need::Query(Query::Variable("JWT_SECRET".to_owned())),
            LoginStage::AccessToken { user, secret, .. } => Need::Task(
                Task::CreateJwt(order_for_user(user, "access", None, secret)),
            ),
            LoginStage::RefreshToken { user, secret, .. } => Need::Task(
                Task::CreateJwt(order_for_user(user, "refresh", None, secret)),
            ),
            LoginStage::Session { user, refresh_token, .. } => Need::Query(
                Query::CachePut {
                    key: refresh_token.clone(),
                    value: write_base_session(user.id),
                    seconds: 3600,
                },
            ),
        }
    }

    fn resume(self, reply: Reply) -> (r: Progress<Self, Self::Answer>) {
        match (self.stage, reply) {
            (LoginStage::OpenDatabase, Reply::Done(Ok(_))) => Progress::Ask(
                Login { request: self.request, stage: LoginStage::OpenCache },
            ),
            (LoginStage::OpenDatabase, Reply::Done(Err(e))) => Progress::Done(
                Err(
                    fail(
                        Status::ServiceUnavailable,
                        "login",
                        "failed to get DB connection",
                        e.as_str(),
                    ),
                ),
            ),
            (LoginStage::OpenCache, Reply::Done(Ok(_))) => Progress::Ask(
                Login { request: self.request, stage: LoginStage::FindUser },
            ),
            (LoginStage::OpenCache, Reply::Done(Err(e))) => Progress::Done(
                Err(
                    fail(
                        Status::ServiceUnavailable,
                        "login",
                        "failed to get Redis connection",
                        e.as_str(),
                    ),
                ),
            ),
            (LoginStage::FindUser, Reply::User(Ok(user))) => match copy_maybe(&user.password_hash) {
                Some(hash) => Progress::Ask(
                    Login { request: self.request, stage: LoginStage::Verify { user, hash } },
                ),
                None => Progress::Done(
                    Err(
                        refuse(
                            Status::Unauthorized,
                            "login",
                            "user '".to_owned()
                                .concat(user.email_id.as_str())
                                .concat("' has no password hash set").as_str(),
                        ),
                    ),
                ),
            },
            (LoginStage::FindUser, Reply::User(Err(e))) => Progress::Done(
                Err(
                    fail(
                        Status::Unauthorized,
                        "login",
                        "user not found for email '".to_owned()
                            .concat(self.request.email.as_str())
                            .concat("'").as_str(),
                        e.as_str(),
                    ),
                ),
            ),
            (LoginStage::Verify { user, .. }, Reply::Flag(Ok(valid))) => if valid {
                Progress::Ask(
                    Login { request: self.request, stage: LoginStage::CachedGroups { user } },
                )
            } else {
                Progress::Done(
                    Err(
                        refuse(
                            Status::Unauthorized,
                            "login",
                            "invalid password for user '".to_owned()
                                .concat(user.email_id.as_str())
                                .concat("'").as_str(),
                        ),
                    ),
                )
            },
            (LoginStage::Verify { user, .. }, Reply::Flag(Err(e))) => Progress::Done(
                Err(
                    fail(
                        Status::Unauthorized,
                        "login",
                        "bcrypt verify error for user '".to_owned()
                            .concat(user.email_id.as_str())
                            .concat("'").as_str(),
                        e.as_str(),
                    ),
                ),
            ),
            (LoginStage::CachedGroups { user }, Reply::MaybeText(Ok(Some(json)))) => Progress::Ask(
                Login { request: self.request, stage: LoginStage::ReadGroups { user, json } },
            ),
            (LoginStage::CachedGroups { user }, Reply::MaybeText(Ok(None))) => Progress::Ask(
                Login { request: self.request, stage: LoginStage::LoadGroups { user } },
            ),
            (LoginStage::CachedGroups { user }, Reply::MaybeText(Err(_))) => continue_login(
                self.request,
                user,
                None,
            ),
            (LoginStage::ReadGroups { user, .. }, Reply::Texts(Ok(groups))) => continue_login(
                self.request,
                user,
                Some(groups),
            ),
            (LoginStage::ReadGroups { user, .. }, Reply::Texts(Err(_))) => continue_login(
                self.request,
                user,
                None,
            ),
            (LoginStage::LoadGroups { user }, Reply::Texts(Ok(groups))) => Progress::Ask(
                Login { request: self.request, stage: LoginStage::WriteGroups { user, groups } },
            ),
            (LoginStage::LoadGroups { user }, Reply::Texts(Err(e))) => Progress::Done(
                Err(
                    fail(
                        Status::InternalServerError,
                        "login",
                        "loading groups from DB for user ".to_owned().concat(
                            integer_text(user.id).as_str(),
                        ).as_str(),
                        e.as_str(),
                    ),
                ),
            ),
            (
                LoginStage::WriteGroups { user, groups },
                Reply::Text(written_groups),
            ) => Progress::Ask(
                Login {
                    request: self.request,
                    stage: LoginStage::CacheGroups { user, groups, written_groups },
                },
            ),
            (LoginStage::CacheGroups { user, groups, .. }, Reply::Done(_)) => continue_login(
                self.request,
                user,
                Some(groups),
            ),
            (LoginStage::Access { user, access }, reply) => match access.resume(reply) {
                AccessProgress::Ask(access) => Progress::Ask(
                    Login { request: self.request, stage: LoginStage::Access { user, access } },
                ),
                AccessProgress::Known { access, allowed } => if allowed {
                    Progress::Ask(
                        Login {
                            request: self.request,
                            stage: LoginStage::AppSecret { user, app_id: access.app_id },
                        },
                    )
                } else {
                    Progress::Done(
                        Err(
                            refuse(
                                Status::Forbidden,
                                "login",
                                "user '".to_owned()
                                    .concat(user.email_id.as_str())
                                    .concat("' does not have access to app '")
                                    .concat(access.app_id.as_str())
                                    .concat("' (groups: ")
                                    .concat(
                                        debug_of_texts(&known_groups(&access.user_groups)).as_str(),
                                    )
                                    .concat(")").as_str(),
                            ),
                        ),
                    )
                },
                AccessProgress::Failed { access, cause } => Progress::Done(
                    Err(
                        fail(
                            Status::InternalServerError,
                            "login",
                            "checking app access for user '".to_owned()
                                .concat(user.email_id.as_str())
                                .concat("' / app '")
                                .concat(access.app_id.as_str())
                                .concat("'").as_str(),
                            cause.as_str(),
                        ),
                    ),
                ),
            },
            (LoginStage::AppSecret { user, app_id }, Reply::Text(secret)) => Progress::Ask(
                Login {
                    request: self.request,
                    stage: LoginStage::AppAccessToken { user, app_id, secret },
                },
            ),
            (
                LoginStage::AppAccessToken { user, app_id, secret },
                Reply::Token(Ok(access_token)),
            ) => Progress::Ask(
                Login {
                    request: self.request,
                    stage: LoginStage::AppRefreshToken { user, app_id, secret, access_token },
                },
            ),
            (LoginStage::AppAccessToken { .. }, Reply::Token(Err(e))) => Progress::Done(Err(e)),
            (
                LoginStage::AppRefreshToken { user, app_id, secret, access_token },
                Reply::Token(Ok(refresh_token)),
            ) => Progress::Ask(
                Login {
                    request: self.request,
                    stage: LoginStage::AppSession {
                        user,
                        app_id,
                        secret,
                        access_token,
                        refresh_token,
                    },
                },
            ),
            (LoginStage::AppRefreshToken { .. }, Reply::Token(Err(e))) => Progress::Done(Err(e)),
            (
                LoginStage::AppSession { user, secret, access_token, refresh_token, .. },
                Reply::Done(Ok(_)),
            ) => Progress::Ask(
                Login {
                    request: self.request,
                    stage: LoginStage::AccessToken {
                        user,
                        secret,
                        app_tokens: Some(LoginResponse { access_token, refresh_token }),
                    },
                },
            ),
            (LoginStage::AppSession { app_id, .. }, Reply::Done(Err(e))) => Progress::Done(
                Err(
                    fail(
                        Status::InternalServerError,
                        "login",
                        "caching app session for app '".to_owned()
                            .concat(app_id.as_str())
                            .concat("'").as_str(),
                        e.as_str(),
                    ),
                ),
            ),
            (LoginStage::Secret { user }, Reply::Text(secret)) => Progress::Ask(
                Login {
                    request: self.request,
                    stage: LoginStage::AccessToken { user, secret, app_tokens: None },
                },
            ),
            (
                LoginStage::AccessToken { user, secret, app_tokens },
                Reply::Token(Ok(access_token)),
            ) => Progress::Ask(
                Login {
                    request: self.request,
                    stage: LoginStage::RefreshToken { user, secret, app_tokens, access_token },
                },
            ),
            (LoginStage::AccessToken { .. }, Reply::Token(Err(e))) => Progress::Done(Err(e)),
            (
                LoginStage::RefreshToken { user, app_tokens, access_token, .. },
                Reply::Token(Ok(refresh_token)),
            ) => Progress::Ask(
                Login {
                    request: self.request,
                    stage: LoginStage::Session { user, app_tokens, access_token, refresh_token },
                },
            ),
            (LoginStage::RefreshToken { .. }, Reply::Token(Err(e))) => Progress::Done(Err(e)),
            (
                LoginStage::Session { app_tokens, access_token, refresh_token, .. },
                Reply::Done(Ok(_)),
            ) => Progress::Done(
                Ok(
                    IAMLoginResponse {
                        app_tokens,
                        iam_tokens: LoginResponse { access_token, refresh_token },
                    },
                ),
            ),
            (LoginStage::Session { user, .. }, Reply::Done(Err(e))) => Progress::Done(
                Err(
                    fail(
                        Status::InternalServerError,
                        "login",
                        "caching base IAM session for user '".to_owned()
                            .concat(user.email_id.as_str())
                            .concat("'").as_str(),
                        e.as_str(),
                    ),
                ),
            ),
            (stage, _) => Progress::Ask(Login { request: self.request, stage }),
        }
    }
}

/// A request for a new access token on its way.
pub struct RefreshToken {
    pub request: RefreshTokenRequest,
    pub stage: RefreshTokenStage,
}

/// How far [`RefreshToken`] has come: what it waits for.
pub enum RefreshTokenStage {
    OpenCache,
    Secret,
    Read { secret: String },
    Find { secret: String, claims: Claims },
    Create { secret: String, claims: Claims },
}

/// Starts a request for a new access token: it is made for the holder of a refresh
/// token that is valid and still cached.
pub fn refresh_token(request: RefreshTokenRequest) -> (r: RefreshToken)
    ensures
        r == (RefreshToken { request, stage: RefreshTokenStage::OpenCache }),
{
    RefreshToken { request, stage: RefreshTokenStage::OpenCache }
}

impl Handler for RefreshToken {
    type Answer = RefreshTokenResponse;

    open spec fn asks(&self) -> NeedView {
        match self.stage {
            RefreshTokenStage::OpenCache => NeedView::Query(QueryView::OpenCache),
            RefreshTokenStage::Secret => NeedView::Query(QueryView::Variable("JWT_SECRET"@)),
            RefreshTokenStage::Read { secret } => NeedView::Task(
                TaskView::ReadClaims { token: self.request.refresh_token@, secret: secret@ },
            ),
            RefreshTokenStage::Find { .. } => NeedView::Query(
                QueryView::CacheHas(self.request.refresh_token@),
            ),
            RefreshTokenStage::Create { secret, claims } => NeedView::Task(
                TaskView::CreateJwt(
                    holder_order(claims, "access"@, maybe_text(claims.client_id), Ok(secret)),
                ),
            ),
        }
    }

    open spec fn next(self, reply: Reply) -> Outcome<Self, RefreshTokenResponse> {
        match (self.stage, reply) {
            (RefreshTokenStage::OpenCache, Reply::Done(Ok(_))) => Outcome::Ask(
                RefreshToken { stage: RefreshTokenStage::Secret, ..self },
            ),
            (RefreshTokenStage::OpenCache, Reply::Done(Err(e))) => Outcome::Done(
                Err(
                    failure(
                        Status::ServiceUnavailable,
                        at("refresh_token"@, "failed to get Redis connection"@),
                        e@,
                    ),
                ),
            ),
            (RefreshTokenStage::Secret, Reply::Text(Ok(secret))) => Outcome::Ask(
                RefreshToken { stage: RefreshTokenStage::Read { secret }, ..self },
            ),
            (RefreshTokenStage::Secret, Reply::Text(Err(e))) => Outcome::Done(
                Err(
                    failure(
                        Status::InternalServerError,
                        at("refresh_token"@, "reading JWT_SECRET env var"@),
                        e@,
                    ),
                ),
            ),
            (
                RefreshTokenStage::Read { secret },
                Reply::Claims(Ok(claims)),
            ) => if claims.token_type@ == "refresh"@ {
                Outcome::Ask(
                    RefreshToken { stage: RefreshTokenStage::Find { secret, claims }, ..self },
                )
            } else {
                Outcome::Done(
                    Err(
                        refusal(
                            Status::Unauthorized,
                            at(
                                "refresh_token"@,
                                "expected token_type 'refresh', got '"@ + claims.token_type@ + "'"@,
                            ),
                        ),
                    ),
                )
            },
            (RefreshTokenStage::Read { .. }, Reply::Claims(Err(e))) => Outcome::Done(
                Err(
                    failure(
                        Status::Unauthorized,
                        at("refresh_token"@, "decoding refresh token"@),
                        e@,
                    ),
                ),
            ),
            (RefreshTokenStage::Find { secret, claims }, Reply::Flag(Ok(found))) => if found {
                Outcome::Ask(
                    RefreshToken { stage: RefreshTokenStage::Create { secret, claims }, ..self },
                )
            } else {
                Outcome::Done(
                    Err(
                        refusal(
                            Status::Unauthorized,
                            at(
                                "refresh_token"@,
                                "refresh token not found in Redis (expired or revoked)"@,
                            ),
                        ),
                    ),
                )
            },
            (RefreshTokenStage::Find { .. }, Reply::Flag(Err(e))) => Outcome::Done(
                Err(
                    failure(
                        Status::InternalServerError,
                        at("refresh_token"@, "checking refresh token existence in Redis"@),
                        e@,
                    ),
                ),
            ),
            (RefreshTokenStage::Create { .. }, Reply::Token(Ok(access_token))) => Outcome::Done(
                Ok(RefreshTokenResponse { access_token }),
            ),
            (RefreshTokenStage::Create { .. }, Reply::Token(Err(e))) => Outcome::Done(Err(e@)),
            _ => Outcome::Ask(self),
        }
    }

    open spec fn rank(&self) -> nat {
        match self.stage {
            RefreshTokenStage::OpenCache => 5,
            RefreshTokenStage::Secret => 4,
            RefreshTokenStage::Read { .. } => 3,
            RefreshTokenStage::Find { .. } => 2,
            RefreshTokenStage::Create { .. } => 1,
        }
    }

    open spec fn speaks_as(name: Seq<char>) -> bool {
        name == "refresh_token"@ || name == "create_jwt"@
    }

    proof fn moves(self, reply: Reply) {
    }

    proof fn ignores(self, reply: Reply) {
    }

    proof fn reports(self, reply: Reply) {
        broadcast use refusal_is_reported, failure_is_reported;

        assert(Self::speaks_as("refresh_token"@));
        assert(Self::speaks_as("create_jwt"@));
        token_failures_are_reported(self.asks(), reply);
    }

    fn need(&self) -> (r: Need) {
        match &self.stage {
            RefreshTokenStage::OpenCache => Need::Query(Query::OpenCache),
            RefreshTokenStage::Secret => Need::Query(Query::Variable("JWT_SECRET".to_owned())),
            RefreshTokenStage::Read { secret } => Need::Task(
                Task::ReadClaims {
                    token: self.request.refresh_token.clone(),
                    secret: secret.clone(),
                },
            ),
            RefreshTokenStage::Find { .. } => Need::Query(
                Query::CacheHas(self.request.refresh_token.clone()),
            ),
            RefreshTokenStage::Create { secret, claims } => Need::Task(
                Task::CreateJwt(
                    order_for_holder(
                        claims,
                        "access",
                        copy_maybe(&claims.client_id),
                        &Ok(secret.clone()),
                    ),
                ),
            ),
        }
    }

    fn resume(self, reply: Reply) -> (r: Progress<Self, Self::Answer>) {
        match (self.stage, reply) {
            (RefreshTokenStage::OpenCache, Reply::Done(Ok(_))) => Progress::Ask(
                RefreshToken { request: self.request, stage: RefreshTokenStage::Secret },
            ),
            (RefreshTokenStage::OpenCache, Reply::Done(Err(e))) => Progress::Done(
                Err(
                    fail(
                        Status::ServiceUnavailable,
                        "refresh_token",
                        "failed to get Redis connection",
                        e.as_str(),
                    ),
                ),
            ),
            (RefreshTokenStage::Secret, Reply::Text(Ok(secret))) => Progress::Ask(
                RefreshToken { request: self.request, stage: RefreshTokenStage::Read { secret } },
            ),
            (RefreshTokenStage::Secret, Reply::Text(Err(e))) => Progress::Done(
                Err(
                    fail(
                        Status::InternalServerError,
                        "refresh_token",
                        "reading JWT_SECRET env var",
                        e.as_str(),
                    ),
                ),
            ),
            (RefreshTokenStage::Read { secret }, Reply::Claims(Ok(claims))) => if same_text(
                claims.token_type.as_str(),
                "refresh",
            ) {
                Progress::Ask(
                    RefreshToken {
                        request: self.request,
                        stage: RefreshTokenStage::Find { secret, claims },
                    },
                )
            } else {
                Progress::Done(
                    Err(
                        refuse(
                            Status::Unauthorized,
                            "refresh_token",
                            "expected token_type 'refresh', got '".to_owned()
                                .concat(claims.token_type.as_str())
                                .concat("'").as_str(),
                        ),
                    ),
                )
            },
            (RefreshTokenStage::Read { .. }, Reply::Claims(Err(e))) => Progress::Done(
                Err(
                    fail(
                        Status::Unauthorized,
                        "refresh_token",
                        "decoding refresh token",
                        e.as_str(),
                    ),
                ),
            ),
            (RefreshTokenStage::Find { secret, claims }, Reply::Flag(Ok(found))) => if found {
                Progress::Ask(
                    RefreshToken {
                        request: self.request,
                        stage: RefreshTokenStage::Create { secret, claims },
                    },
                )
            } else {
                Progress::Done(
                    Err(
                        refuse(
                            Status::Unauthorized,
                            "refresh_token",
                            "refresh token not found in Redis (expired or revoked)",
                        ),
                    ),
                )
            },
            (RefreshTokenStage::Find { .. }, Reply::Flag(Err(e))) => Progress::Done(
                Err(
                    fail(
                        Status::InternalServerError,
                        "refresh_token",
                        "checking refresh token existence in Redis",
                        e.as_str(),
                    ),
                ),
            ),
            (RefreshTokenStage::Create { .. }, Reply::Token(Ok(access_token))) => Progress::Done(
                Ok(RefreshTokenResponse { access_token }),
            ),
            (RefreshTokenStage::Create { .. }, Reply::Token(Err(e))) => Progress::Done(Err(e)),
            (stage, _) => Progress::Ask(RefreshToken { request: self.request, stage }),
        }
    }
}

/// A logout on its way.
pub struct Logout {
    pub request: LogoutRequest,
    pub stage: LogoutStage,
}

/// How far [`Logout`] has come: what it waits for.
pub enum LogoutStage {
    OpenCache,
    Find,
    Forget,
}

/// Starts a logout: the refresh token is forgotten.
pub fn logout(request: LogoutRequest, _claims: Claims) -> (r: Logout)
    ensures
        r == (Logout { request, stage: LogoutStage::OpenCache }),
{
    Logout { request, stage: LogoutStage::OpenCache }
}

impl Handler for Logout {
    type Answer = MessageResponse;

    open spec fn asks(&self) -> NeedView {
        match self.stage {
            LogoutStage::OpenCache => NeedView::Query(QueryView::OpenCache),
            LogoutStage::Find => NeedView::Query(QueryView::CacheHas(self.request.refresh_token@)),
            LogoutStage::Forget => NeedView::Query(
                QueryView::CacheDrop(self.request.refresh_token@),
            ),
        }
    }

    open spec fn next(self, reply: Reply) -> Outcome<Self, Seq<char>> {
        match (self.stage, reply) {
            (LogoutStage::OpenCache, Reply::Done(Ok(_))) => Outcome::Ask(
                Logout { stage: LogoutStage::Find, ..self },
            ),
            (LogoutStage::OpenCache, Reply::Done(Err(e))) => Outcome::Done(
                Err(
                    failure(
                        Status::ServiceUnavailable,
                        at("logout"@, "failed to get Redis connection"@),
                        e@,
                    ),
                ),
            ),
            (LogoutStage::Find, Reply::Flag(Ok(found))) => if found {
                Outcome::Ask(Logout { stage: LogoutStage::Forget, ..self })
            } else {
                Outcome::Done(Ok("Logged out successfully"@))
            },
            (LogoutStage::Find, Reply::Flag(Err(e))) => Outcome::Done(
                Err(
                    failure(
                        Status::InternalServerError,
                        at("logout"@, "checking refresh token existence in Redis"@),
                        e@,
                    ),
                ),
            ),
            (LogoutStage::Forget, Reply::Done(Ok(_))) => Outcome::Done(
                Ok("Logged out successfully"@),
            ),
            (LogoutStage::Forget, Reply::Done(Err(e))) => Outcome::Done(
                Err(
                    failure(
                        Status::InternalServerError,
                        at("logout"@, "deleting refresh token from Redis"@),
                        e@,
                    ),
                ),
            ),
            _ => Outcome::Ask(self),
        }
    }

    open spec fn rank(&self) -> nat {
        match self.stage {
            LogoutStage::OpenCache => 3,
            LogoutStage::Find => 2,
            LogoutStage::Forget => 1,
        }
    }

    open spec fn speaks_as(name: Seq<char>) -> bool {
        name == "logout"@
    }

    proof fn moves(self, reply: Reply) {
    }

    proof fn ignores(self, reply: Reply) {
    }

    proof fn reports(self, reply: Reply) {
        broadcast use refusal_is_reported, failure_is_reported;

        assert(Self::speaks_as("logout"@));
    }

    fn need(&self) -> (r: Need) {
        match &self.stage {
            LogoutStage::OpenCache => Need::Query(Query::OpenCache),
            LogoutStage::Find => Need::Query(Query::CacheHas(self.request.refresh_token.clone())),
            LogoutStage::Forget => Need::Query(
                Query::CacheDrop(self.request.refresh_token.clone()),
            ),
        }
    }

    fn resume(self, reply: Reply) -> (r: Progress<Self, Self::Answer>) {
        match (self.stage, reply) {
            (LogoutStage::OpenCache, Reply::Done(Ok(_))) => Progress::Ask(
                Logout { request: self.request, stage: LogoutStage::Find },
            ),
            (LogoutStage::OpenCache, Reply::Done(Err(e))) => Progress::Done(
                Err(
                    fail(
                        Status::ServiceUnavailable,
                        "logout",
                        "failed to get Redis connection",
                        e.as_str(),
                    ),
                ),
            ),
            (LogoutStage::Find, Reply::Flag(Ok(found))) => if found {
                Progress::Ask(Logout { request: self.request, stage: LogoutStage::Forget })
            } else {
                Progress::Done(
                    Ok(MessageResponse { message: "Logged out successfully".to_owned() }),
                )
            },
            (LogoutStage::Find, Reply::Flag(Err(e))) => Progress::Done(
                Err(
                    fail(
                        Status::InternalServerError,
                        "logout",
                        "checking refresh token existence in Redis",
                        e.as_str(),
                    ),
                ),
            ),
            (LogoutStage::Forget, Reply::Done(Ok(_))) => Progress::Done(
                Ok(MessageResponse { message: "Logged out successfully".to_owned() }),
            ),
            (LogoutStage::Forget, Reply::Done(Err(e))) => Progress::Done(
                Err(
                    fail(
                        Status::InternalServerError,
                        "logout",
                        "deleting refresh token from Redis",
                        e.as_str(),
                    ),
                ),
            ),
            (stage, _) => Progress::Ask(Logout { request: self.request, stage }),
        }
    }
}

/// A clearing of the cache on its way.
pub struct ClearRedis {
    pub claims: Claims,
    pub stage: ClearRedisStage,
}

/// How far [`ClearRedis`] has come: what it waits for.
pub enum ClearRedisStage {
    OpenCache,
    ForgetGroups,
    ForgetOwned,
}

/// Starts a clearing of the cache: the lists of the groups that the holder of the
/// token is in and owns are forgotten.
pub fn clear_redis(claims: Claims) -> (r: ClearRedis)
    ensures
        r == (ClearRedis { claims, stage: ClearRedisStage::OpenCache }),
{
    ClearRedis { claims, stage: ClearRedisStage::OpenCache }
}

impl Handler for ClearRedis {
    type Answer = String;

    open spec fn asks(&self) -> NeedView {
        match self.stage {
            ClearRedisStage::OpenCache => NeedView::Query(QueryView::OpenCache),
            ClearRedisStage::ForgetGroups => NeedView::Query(
                QueryView::CacheDrop("user_groups:"@ + self.claims.user_id@),
            ),
            ClearRedisStage::ForgetOwned => NeedView::Query(
                QueryView::CacheDrop("groups_owned:"@ + self.claims.user_id@),
            ),
        }
    }

    open spec fn next(self, reply: Reply) -> Outcome<Self, Seq<char>> {
        match (self.stage, reply) {
            (ClearRedisStage::OpenCache, Reply::Done(Ok(_))) => Outcome::Ask(
                ClearRedis { stage: ClearRedisStage::ForgetGroups, ..self },
            ),
            (ClearRedisStage::OpenCache, Reply::Done(Err(e))) => Outcome::Done(
                Err(
                    failure(
                        Status::ServiceUnavailable,
                        at("clear_redis"@, "failed to get Redis connection"@),
                        e@,
                    ),
                ),
            ),
            (ClearRedisStage::ForgetGroups, Reply::Done(Ok(_))) => Outcome::Ask(
                ClearRedis { stage: ClearRedisStage::ForgetOwned, ..self },
            ),
            (ClearRedisStage::ForgetGroups, Reply::Done(Err(e))) => Outcome::Done(
                Err(
                    failure(
                        Status::InternalServerError,
                        at(
                            "clear_redis"@,
                            "deleting key 'user_groups:"@ + self.claims.user_id@ + "'"@,
                        ),
                        e@,
                    ),
                ),
            ),
            (ClearRedisStage::ForgetOwned, Reply::Done(Ok(_))) => Outcome::Done(
                Ok("Successfully cleared Redis cache."@),
            ),
            (ClearRedisStage::ForgetOwned, Reply::Done(Err(e))) => Outcome::Done(
                Err(
                    failure(
                        Status::InternalServerError,
                        at(
                            "clear_redis"@,
                            "deleting key 'groups_owned:"@ + self.claims.user_id@ + "'"@,
                        ),
                        e@,
                    ),
                ),
            ),
            _ => Outcome::Ask(self),
        }
    }

    open spec fn rank(&self) -> nat {
        match self.stage {
            ClearRedisStage::OpenCache => 3,
            ClearRedisStage::ForgetGroups => 2,
            ClearRedisStage::ForgetOwned => 1,
        }
    }

    open spec fn speaks_as(name: Seq<char>) -> bool {
        name == "clear_redis"@
    }

    proof fn moves(self, reply: Reply) {
    }

    proof fn ignores(self, reply: Reply) {
    }

    proof fn reports(self, reply: Reply) {
        broadcast use refusal_is_reported, failure_is_reported;

        assert(Self::speaks_as("clear_redis"@));
    }

    fn need(&self) -> (r: Need) {
        match &self.stage {
            ClearRedisStage::OpenCache => Need::Query(Query::OpenCache),
            ClearRedisStage::ForgetGroups => Need::Query(
                Query::CacheDrop("user_groups:".to_owned().concat(self.claims.user_id.as_str())),
            ),
            ClearRedisStage::ForgetOwned => Need::Query(
                Query::CacheDrop("groups_owned:".to_owned().concat(self.claims.user_id.as_str())),
            ),
        }
    }

    fn resume(self, reply: Reply) -> (r: Progress<Self, Self::Answer>) {
        match (self.stage, reply) {
            (ClearRedisStage::OpenCache, Reply::Done(Ok(_))) => Progress::Ask(
                ClearRedis { claims: self.claims, stage: ClearRedisStage::ForgetGroups },
            ),
            (ClearRedisStage::OpenCache, Reply::Done(Err(e))) => Progress::Done(
                Err(
                    fail(
                        Status::ServiceUnavailable,
                        "clear_redis",
                        "failed to get Redis connection",
                        e.as_str(),
                    ),
                ),
            ),
            (ClearRedisStage::ForgetGroups, Reply::Done(Ok(_))) => Progress::Ask(
                ClearRedis { claims: self.claims, stage: ClearRedisStage::ForgetOwned },
            ),
            (ClearRedisStage::ForgetGroups, Reply::Done(Err(e))) => Progress::Done(
                Err(
                    fail(
                        Status::InternalServerError,
                        "clear_redis",
                        "deleting key 'user_groups:".to_owned()
                            .concat(self.claims.user_id.as_str())
                            .concat("'").as_str(),
                        e.as_str(),
                    ),
                ),
            ),
            (ClearRedisStage::ForgetOwned, Reply::Done(Ok(_))) => Progress::Done(
                Ok("Successfully cleared Redis cache.".to_owned()),
            ),
            (ClearRedisStage::ForgetOwned, Reply::Done(Err(e))) => Progress::Done(
                Err(
                    fail(
                        Status::InternalServerError,
                        "clear_redis",
                        "deleting key 'groups_owned:".to_owned()
                            .concat(self.claims.user_id.as_str())
                            .concat("'").as_str(),
                        e.as_str(),
                    ),
                ),
            ),
            (stage, _) => Progress::Ask(ClearRedis { claims: self.claims, stage }),
        }
    }
}

/// A request for tokens for an application on its way.
pub struct GenerateAppTokens {
    pub app_id: String,
    pub claims: Claims,
    pub stage: GenerateAppTokensStage,
}

/// How far [`GenerateAppTokens`] has come: what it waits for.
pub enum GenerateAppTokensStage {
    OpenDatabase { groups: Vec<String> },
    OpenCache { groups: Vec<String> },
    Access { access: AppAccess },
    Secret,
    AccessToken { secret: Result<String, String> },
    RefreshToken { secret: Result<String, String>, access_token: String },
    Session { access_token: String, refresh_token: String },
}

/// Starts a request for an access and a refresh token for an application that is
/// open to the holder of a token. The refresh token is cached for an hour.
pub fn generate_app_tokens(
    app_id: String,
    claims: Claims,
    groups: GroupMemberships,
) -> (r: GenerateAppTokens)
    ensures
        r == (
            GenerateAppTokens {
                app_id,
                claims,
                stage: GenerateAppTokensStage::OpenDatabase { groups: groups.0 },
            }
        ),
{
    GenerateAppTokens {
        app_id,
        claims,
        stage: GenerateAppTokensStage::OpenDatabase { groups: groups.0 },
    }
}

impl Handler for GenerateAppTokens {
    type Answer = LoginResponse;

    open spec fn asks(&self) -> NeedView {
        match self.stage {
            GenerateAppTokensStage::OpenDatabase { .. } => NeedView::Query(QueryView::OpenDatabase),
            GenerateAppTokensStage::OpenCache { .. } => NeedView::Query(QueryView::OpenCache),
            GenerateAppTokensStage::Access { access } => NeedView::Query(access.asks()),
            GenerateAppTokensStage::Secret => NeedView::Query(QueryView::Variable("JWT_SECRET"@)),
            GenerateAppTokensStage::AccessToken { secret } => NeedView::Task(
                TaskView::CreateJwt(
                    holder_order(self.claims, "access"@, Some(self.app_id@), secret),
                ),
            ),
            GenerateAppTokensStage::RefreshToken { secret, .. } => NeedView::Task(
                TaskView::CreateJwt(
                    holder_order(self.claims, "refresh"@, Some(self.app_id@), secret),
                ),
            ),
            GenerateAppTokensStage::Session { refresh_token, .. } => NeedView::Query(
                QueryView::CachePut {
                    key: refresh_token@,
                    value: app_session(JsonView::Text(self.claims.user_id@), self.app_id@),
                    seconds: 3600,
                },
            ),
        }
    }

    open spec fn next(self, reply: Reply) -> Outcome<Self, LoginResponse> {
        match (self.stage, reply) {
            (GenerateAppTokensStage::OpenDatabase { groups }, Reply::Done(Ok(_))) => Outcome::Ask(
                GenerateAppTokens { stage: GenerateAppTokensStage::OpenCache { groups }, ..self },
            ),
            (GenerateAppTokensStage::OpenDatabase { .. }, Reply::Done(Err(e))) => Outcome::Done(
                Err(
                    failure(
                        Status::ServiceUnavailable,
                        at("generate_app_tokens"@, "failed to get DB connection"@),
                        e@,
                    ),
                ),
            ),
            (GenerateAppTokensStage::OpenCache { groups }, Reply::Done(Ok(_))) => Outcome::Ask(
                GenerateAppTokens {
                    stage: GenerateAppTokensStage::Access {
                        access: AppAccess {
                            app_id: self.app_id,
                            user_groups: Some(groups),
                            stage: AppAccessStage::FindApp,
                        },
                    },
                    ..self
                },
            ),
            (GenerateAppTokensStage::OpenCache { .. }, Reply::Done(Err(e))) => Outcome::Done(
                Err(
                    failure(
                        Status::ServiceUnavailable,
                        at("generate_app_tokens"@, "failed to get Redis connection"@),
                        e@,
                    ),
                ),
            ),
            (GenerateAppTokensStage::Access { access }, reply) => match access.next(reply) {
                AccessProgress::Ask(access) => Outcome::Ask(
                    GenerateAppTokens { stage: GenerateAppTokensStage::Access { access }, ..self },
                ),
                AccessProgress::Known { allowed, .. } => if allowed {
                    Outcome::Ask(
                        GenerateAppTokens { stage: GenerateAppTokensStage::Secret, ..self },
                    )
                } else {
                    Outcome::Done(
                        Err(
                            refusal(
                                Status::Forbidden,
                                at(
                                    "generate_app_tokens"@,
                                    "user '"@ + self.claims.sub@
                                        + "' does not have access to app '"@ + self.app_id@ + "'"@,
                                ),
                            ),
                        ),
                    )
                },
                AccessProgress::Failed { cause, .. } => Outcome::Done(
                    Err(
                        failure(
                            Status::InternalServerError,
                            at(
                                "generate_app_tokens"@,
                                "checking access to app '"@ + self.app_id@ + "'"@,
                            ),
                            cause@,
                        ),
                    ),
                ),
            },
            (GenerateAppTokensStage::Secret, Reply::Text(secret)) => Outcome::Ask(
                GenerateAppTokens { stage: GenerateAppTokensStage::AccessToken { secret }, ..self },
            ),
            (
                GenerateAppTokensStage::AccessToken { secret },
                Reply::Token(Ok(access_token)),
            ) => Outcome::Ask(
                GenerateAppTokens {
                    stage: GenerateAppTokensStage::RefreshToken { secret, access_token },
                    ..self
                },
            ),
            (GenerateAppTokensStage::AccessToken { .. }, Reply::Token(Err(e))) => Outcome::Done(
                Err(e@),
            ),
            (
                GenerateAppTokensStage::RefreshToken { access_token, .. },
                Reply::Token(Ok(refresh_token)),
            ) => Outcome::Ask(
                GenerateAppTokens {
                    stage: GenerateAppTokensStage::Session { access_token, refresh_token },
                    ..self
                },
            ),
            (GenerateAppTokensStage::RefreshToken { .. }, Reply::Token(Err(e))) => Outcome::Done(
                Err(e@),
            ),
            (
                GenerateAppTokensStage::Session { access_token, refresh_token },
                Reply::Done(Ok(_)),
            ) => Outcome::Done(Ok(LoginResponse { access_token, refresh_token })),
            (GenerateAppTokensStage::Session { .. }, Reply::Done(Err(e))) => Outcome::Done(
                Err(
                    failure(
                        Status::InternalServerError,
                        at(
                            "generate_app_tokens"@,
                            "caching session for app '"@ + self.app_id@ + "'"@,
                        ),
                        e@,
                    ),
                ),
            ),
            _ => Outcome::Ask(self),
        }
    }

    open spec fn rank(&self) -> nat {
        match self.stage {
            GenerateAppTokensStage::OpenDatabase { .. } => 9,
            GenerateAppTokensStage::OpenCache { .. } => 8,
            GenerateAppTokensStage::Access { access } => 4 + access.rank(),
            GenerateAppTokensStage::Secret => 4,
            GenerateAppTokensStage::AccessToken { .. } => 3,
            GenerateAppTokensStage::RefreshToken { .. } => 2,
            GenerateAppTokensStage::Session { .. } => 1,
        }
    }

    open spec fn speaks_as(name: Seq<char>) -> bool {
        name == "generate_app_tokens"@ || name == "create_jwt"@
    }

    proof fn moves(self, reply: Reply) {
    }

    proof fn ignores(self, reply: Reply) {
    }

    proof fn reports(self, reply: Reply) {
        broadcast use refusal_is_reported, failure_is_reported;

        assert(Self::speaks_as("generate_app_tokens"@));
        assert(Self::speaks_as("create_jwt"@));
        token_failures_are_reported(self.asks(), reply);
    }

    fn need(&self) -> (r: Need) {
        match &self.stage {
            GenerateAppTokensStage::OpenDatabase { .. } => Need::Query(Query::OpenDatabase),
            GenerateAppTokensStage::OpenCache { .. } => Need::Query(Query::OpenCache),
            GenerateAppTokensStage::Access { access } => Need::Query(access.need()),
            GenerateAppTokensStage::Secret => Need::Query(Query::Variable("JWT_SECRET".to_owned())),
            GenerateAppTokensStage::AccessToken { secret } => Need::Task(
                Task::CreateJwt(
                    order_for_holder(&self.claims, "access", Some(self.app_id.clone()), secret),
                ),
            ),
            GenerateAppTokensStage::RefreshToken { secret, .. } => Need::Task(
                Task::CreateJwt(
                    order_for_holder(&self.claims, "refresh", Some(self.app_id.clone()), secret),
                ),
            ),
            GenerateAppTokensStage::Session { refresh_token, .. } => Need::Query(
                Query::CachePut {
                    key: refresh_token.clone(),
                    value: write_holder_session(self.claims.user_id.as_str(), self.app_id.as_str()),
                    seconds: 3600,
                },
            ),
        }
    }

    fn resume(self, reply: Reply) -> (r: Progress<Self, Self::Answer>) {
        match (self.stage, reply) {
            (GenerateAppTokensStage::OpenDatabase { groups }, Reply::Done(Ok(_))) => Progress::Ask(
                GenerateAppTokens {
                    app_id: self.app_id,
                    claims: self.claims,
                    stage: GenerateAppTokensStage::OpenCache { groups },
                },
            ),
            (GenerateAppTokensStage::OpenDatabase { .. }, Reply::Done(Err(e))) => Progress::Done(
                Err(
                    fail(
                        Status::ServiceUnavailable,
                        "generate_app_tokens",
                        "failed to get DB connection",
                        e.as_str(),
                    ),
                ),
            ),
            (GenerateAppTokensStage::OpenCache { groups }, Reply::Done(Ok(_))) => Progress::Ask(
                GenerateAppTokens {
                    stage: GenerateAppTokensStage::Access {
                        access: user_has_access_to_app(self.app_id.clone(), Some(groups)),
                    },
                    app_id: self.app_id,
                    claims: self.claims,
                },
            ),
            (GenerateAppTokensStage::OpenCache { .. }, Reply::Done(Err(e))) => Progress::Done(
                Err(
                    fail(
                        Status::ServiceUnavailable,
                        "generate_app_tokens",
                        "failed to get Redis connection",
                        e.as_str(),
                    ),
                ),
            ),
            (GenerateAppTokensStage::Access { access }, reply) => match access.resume(reply) {
                AccessProgress::Ask(access) => Progress::Ask(
                    GenerateAppTokens {
                        app_id: self.app_id,
                        claims: self.claims,
                        stage: GenerateAppTokensStage::Access { access },
                    },
                ),
                AccessProgress::Known { allowed, .. } => if allowed {
                    Progress::Ask(
                        GenerateAppTokens {
                            app_id: self.app_id,
                            claims: self.claims,
                            stage: GenerateAppTokensStage::Secret,
                        },
                    )
                } else {
                    Progress::Done(
                        Err(
                            refuse(
                                Status::Forbidden,
                                "generate_app_tokens",
                                "user '".to_owned()
                                    .concat(self.claims.sub.as_str())
                                    .concat("' does not have access to app '")
                                    .concat(self.app_id.as_str())
                                    .concat("'").as_str(),
                            ),
                        ),
                    )
                },
                AccessProgress::Failed { cause, .. } => Progress::Done(
                    Err(
                        fail(
                            Status::InternalServerError,
                            "generate_app_tokens",
                            "checking access to app '".to_owned()
                                .concat(self.app_id.as_str())
                                .concat("'").as_str(),
                            cause.as_str(),
                        ),
                    ),
                ),
            },
            (GenerateAppTokensStage::Secret, Reply::Text(secret)) => Progress::Ask(
                GenerateAppTokens {
                    app_id: self.app_id,
                    claims: self.claims,
                    stage: GenerateAppTokensStage::AccessToken { secret },
                },
            ),
            (
                GenerateAppTokensStage::AccessToken { secret },
                Reply::Token(Ok(access_token)),
            ) => Progress::Ask(
                GenerateAppTokens {
                    app_id: self.app_id,
                    claims: self.claims,
                    stage: GenerateAppTokensStage::RefreshToken { secret, access_token },
                },
            ),
            (GenerateAppTokensStage::AccessToken { .. }, Reply::Token(Err(e))) => Progress::Done(
                Err(e),
            ),
            (
                GenerateAppTokensStage::RefreshToken { access_token, .. },
                Reply::Token(Ok(refresh_token)),
            ) => Progress::Ask(
                GenerateAppTokens {
                    app_id: self.app_id,
                    claims: self.claims,
                    stage: GenerateAppTokensStage::Session { access_token, refresh_token },
                },
            ),
            (GenerateAppTokensStage::RefreshToken { .. }, Reply::Token(Err(e))) => Progress::Done(
                Err(e),
            ),
            (
                GenerateAppTokensStage::Session { access_token, refresh_token },
                Reply::Done(Ok(_)),
            ) => Progress::Done(Ok(LoginResponse { access_token, refresh_token })),
            (GenerateAppTokensStage::Session { .. }, Reply::Done(Err(e))) => Progress::Done(
                Err(
                    fail(
                        Status::InternalServerError,
                        "generate_app_tokens",
                        "caching session for app '".to_owned()
                            .concat(self.app_id.as_str())
                            .concat("'").as_str(),
                        e.as_str(),
                    ),
                ),
            ),
            (stage, _) => Progress::Ask(
                GenerateAppTokens { app_id: self.app_id, claims: self.claims, stage },
            ),
        }
    }
}

/// What a valid token says of its holder.
pub fn validate_token(claims: Claims) -> (r: ValidateTokenResponse)
    ensures
        r == (ValidateTokenResponse {
            sub: claims.sub,
            exp: claims.exp,
            user_id: claims.user_id,
            first_name: claims.first_name,
            last_name: claims.last_name,
            middle_name: claims.middle_name,
            client_id: claims.client_id,
        }),
{
    ValidateTokenResponse {
        sub: claims.sub,
        exp: claims.exp,
        user_id: claims.user_id,
        first_name: claims.first_name,
        last_name: claims.last_name,
        middle_name: claims.middle_name,
        client_id: claims.client_id,
    }
}

/// What a valid session token says of its group.
pub fn validate_api_token(claims: APIClaims) -> (r: ValidateAPITokenResponse)
    ensures
        r == (ValidateAPITokenResponse {
            sub: claims.sub,
            exp: claims.exp,
            group_id: claims.group_id,
            scopes: claims.scopes,
        }),
{
    ValidateAPITokenResponse {
        sub: claims.sub,
        exp: claims.exp,
        group_id: claims.group_id,
        scopes: claims.scopes,
    }
}

} // verus!
