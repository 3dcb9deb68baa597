//! API tokens of groups, and the session tokens that they are exchanged for.

use crate::error::{
    ApiError, Failure, Status, at, fail, failure, failure_is_reported, refusal,
    refusal_is_reported, refuse,
};
use crate::models::{
    APIClaims, APIClaimsView, ApiToken, Claims, ClaimsView, CreateApiTokenRequest,
    CreateApiTokenResponse, CreateSessionTokenRequest, CreateSessionTokenResponse, Created,
    Group, GroupApiTokenResponse, GroupKey, GroupOwnerships, MessageResponse, NewApiToken,
};
use crate::tokens::{day_of, moment, moment_after};
use crate::protocol::{
    Handler, Need, NeedView, Outcome, Progress, Query, QueryView, Reply, Task, TaskView,
};
use crate::text::{contains_text, copy_maybe, decimal, integer_text, maybe_text, texts};
use vstd::prelude::*;

verus! {

/// What an API token says that the holder of a token makes and that expires at
/// a time in seconds.
pub open spec fn api_token_claims(claims: Claims, expiration: i64) -> ClaimsView {
    ClaimsView {
        sub: claims.sub@,
        exp: expiration as usize,
        user_id: claims.user_id@,
        token_type: "api"@,
        first_name: maybe_text(claims.first_name),
        last_name: maybe_text(claims.last_name),
        middle_name: maybe_text(claims.middle_name),
        client_id: maybe_text(claims.client_id),
    }
}

/// Makes up what an API token says.
pub fn claim_api_token(claims: &Claims, expiration: i64) -> (r: Claims)
    ensures
        r@ == api_token_claims(*claims, expiration),
{
    Claims {
        sub: claims.sub.clone(),
        exp: expiration as usize,
        user_id: claims.user_id.clone(),
        token_type: "api".to_owned(),
        first_name: copy_maybe(&claims.first_name),
        last_name: copy_maybe(&claims.last_name),
        middle_name: copy_maybe(&claims.middle_name),
        client_id: copy_maybe(&claims.client_id),
    }
}

/// What the holder of a session token may do: write only if they own the group
/// or hold one of its API tokens.
pub open spec fn scopes(may_write: bool) -> Seq<Seq<char>> {
    if may_write {
        seq!["read"@, "write"@]
    } else {
        seq!["read"@]
    }
}

/// What a session token says.
pub open spec fn session_claims(
    identifier: Seq<char>,
    expiration: i64,
    group_id: i64,
    may_write: bool,
) -> APIClaimsView {
    APIClaimsView { sub: identifier, exp: expiration as usize, group_id, scopes: scopes(may_write) }
}

/// Makes up what a session token says.
pub fn claim_session(identifier: &str, expiration: i64, group_id: i64, may_write: bool) -> (r:
    APIClaims)
    ensures
        r@ == session_claims(identifier@, expiration, group_id, may_write),
{
    let mut granted: Vec<String> = Vec::new();
    granted.push("read".to_owned());
    if may_write {
        granted.push("write".to_owned());
    }
    assert(texts(granted@) =~= scopes(may_write));
    APIClaims { sub: identifier.to_owned(), exp: expiration as usize, group_id, scopes: granted }
}

/// For how many seconds a session token holds: for the days that are asked for,
/// or else for twenty minutes.
pub open spec fn session_lifetime(days_to_expire: Option<i64>) -> int {
    match days_to_expire {
        Some(days) => days * 86_400,
        None => 1_200,
    }
}

fn session_seconds(days_to_expire: Option<i64>) -> (r: i128)
    ensures
        r == session_lifetime(days_to_expire),
        -1_000_000_000_000_000_000_000_000 <= r <= 1_000_000_000_000_000_000_000_000,
{
    match days_to_expire {
        Some(days) => days as i128 * 86_400,
        None => 20 * 60,
    }
}

/// What was asked for if the days in which a token is to expire lead beyond the
/// calendar.
pub open spec fn days_beyond(days_to_expire: i64) -> Seq<char> {
    "days_to_expire="@ + decimal(days_to_expire as int) + " is beyond the calendar"@
}

fn tell_days_beyond(days_to_expire: i64) -> (r: String)
    ensures
        r@ == days_beyond(days_to_expire),
{
    "days_to_expire=".to_owned().concat(integer_text(days_to_expire).as_str()).concat(
        " is beyond the calendar",
    )
}

/// The refusal of a session token that would expire beyond the calendar.
pub open spec fn session_beyond(days_to_expire: Option<i64>) -> Failure {
    match days_to_expire {
        Some(days) => refusal(
            Status::BadRequest,
            at("create_api_session_token"@, days_beyond(days)),
        ),
        None => refusal(
            Status::InternalServerError,
            at("create_api_session_token"@, "the expiry is beyond the calendar"@),
        ),
    }
}

fn refuse_session_beyond(days_to_expire: Option<i64>) -> (r: ApiError)
    ensures
        r@ == session_beyond(days_to_expire),
{
    match days_to_expire {
        Some(days) => refuse(
            Status::BadRequest,
            "create_api_session_token",
            tell_days_beyond(days).as_str(),
        ),
        None => refuse(
            Status::InternalServerError,
            "create_api_session_token",
            "the expiry is beyond the calendar",
        ),
    }
}

/// The making of an API token on its way.
pub struct CreateApiToken {
    pub request: CreateApiTokenRequest,
    pub claims: Claims,
    pub stage: CreateApiTokenStage,
}

/// How far [`CreateApiToken`] has come: what it waits for.
pub enum CreateApiTokenStage {
    OpenDatabase,
    Clock,
    Secret { expiration: i64 },
    Sign { expiration: i64, secret: String },
    FindGroup { expiration: i64, token: String },
    Created { expiration: i64, token: String, group: Group },
    Updated { expiration: i64, token: String, group: Group, created_at: i64 },
    Insert { expiration: i64, token: String, group: Group, created_at: i64, updated_at: i64 },
}

/// Starts the making of an API token: one that says who made it and that expires
/// after some days is signed and stored as an active token of the group.
pub fn create_api_token(request: CreateApiTokenRequest, claims: Claims) -> (r: CreateApiToken)
    ensures
        r == (CreateApiToken { request, claims, stage: CreateApiTokenStage::OpenDatabase }),
{
    CreateApiToken { request, claims, stage: CreateApiTokenStage::OpenDatabase }
}

impl Handler for CreateApiToken {
    type Answer = CreateApiTokenResponse;

    open spec fn asks(&self) -> NeedView {
        match self.stage {
            CreateApiTokenStage::OpenDatabase => NeedView::Query(QueryView::OpenDatabase),
            CreateApiTokenStage::Clock => NeedView::Task(TaskView::Clock),
            CreateApiTokenStage::Secret { .. } => NeedView::Query(
                QueryView::Variable("JWT_SECRET"@),
            ),
            CreateApiTokenStage::Sign { expiration, secret } => NeedView::Task(
                TaskView::SignClaims {
                    claims: api_token_claims(self.claims, expiration),
                    secret: secret@,
                },
            ),
            CreateApiTokenStage::FindGroup { .. } => NeedView::Query(
                QueryView::FindGroup(GroupKey::Identifier(self.request.group_identifier)),
            ),
            CreateApiTokenStage::Created { .. } => NeedView::Task(TaskView::Clock),
            CreateApiTokenStage::Updated { .. } => NeedView::Task(TaskView::Clock),
            CreateApiTokenStage::Insert {
                expiration,
                token,
                group,
                created_at,
                updated_at,
            } => NeedView::Query(
                QueryView::InsertApiToken(
                    NewApiToken {
                        parent_id: group.id,
                        expiry_date: (expiration as int / 86_400) as i64,
                        created_at,
                        updated_at,
                        is_active: true,
                        name: self.request.name,
                        token_str: Some(token),
                    },
                ),
            ),
        }
    }

    open spec fn next(self, reply: Reply) -> Outcome<Self, CreateApiTokenResponse> {
        match (self.stage, reply) {
            (CreateApiTokenStage::OpenDatabase, Reply::Done(Ok(_))) => Outcome::Ask(
                CreateApiToken { stage: CreateApiTokenStage::Clock, ..self },
            ),
            (CreateApiTokenStage::OpenDatabase, Reply::Done(Err(e))) => Outcome::Done(
                Err(
                    failure(
                        Status::ServiceUnavailable,
                        at("create_api_token"@, "failed to get DB connection"@),
                        e@,
                    ),
                ),
            ),
            (CreateApiTokenStage::Clock, Reply::Now(now)) => match moment(
                now,
                self.request.days_to_expire * 86_400,
            ) {
                Some(expiration) => Outcome::Ask(
                    CreateApiToken { stage: CreateApiTokenStage::Secret { expiration }, ..self },
                ),
                None => Outcome::Done(
                    Err(
                        refusal(
                            Status::BadRequest,
                            at("create_api_token"@, days_beyond(self.request.days_to_expire)),
                        ),
                    ),
                ),
            },
            (CreateApiTokenStage::Secret { expiration }, Reply::Text(Ok(secret))) => Outcome::Ask(
                CreateApiToken { stage: CreateApiTokenStage::Sign { expiration, secret }, ..self },
            ),
            (CreateApiTokenStage::Secret { .. }, Reply::Text(Err(e))) => Outcome::Done(
                Err(
                    failure(
                        Status::InternalServerError,
                        at("create_api_token"@, "reading JWT_SECRET env var"@),
                        e@,
                    ),
                ),
            ),
            (CreateApiTokenStage::Sign { expiration, .. }, Reply::Text(Ok(token))) => Outcome::Ask(
                CreateApiToken {
                    stage: CreateApiTokenStage::FindGroup { expiration, token },
                    ..self
                },
            ),
            (CreateApiTokenStage::Sign { .. }, Reply::Text(Err(e))) => Outcome::Done(
                Err(
                    failure(
                        Status::InternalServerError,
                        at("create_api_token"@, "encoding token"@),
                        e@,
                    ),
                ),
            ),
            (
                CreateApiTokenStage::FindGroup { expiration, token },
                Reply::Group(Ok(group)),
            ) => Outcome::Ask(
                CreateApiToken {
                    stage: CreateApiTokenStage::Created { expiration, token, group },
                    ..self
                },
            ),
            (CreateApiTokenStage::FindGroup { .. }, Reply::Group(Err(e))) => Outcome::Done(
                Err(
                    failure(
                        Status::NotFound,
                        at(
                            "create_api_token"@,
                            "group '"@ + self.request.group_identifier@ + "' not found"@,
                        ),
                        e@,
                    ),
                ),
            ),
            (
                CreateApiTokenStage::Created { expiration, token, group },
                Reply::Now(created_at),
            ) => Outcome::Ask(
                CreateApiToken {
                    stage: CreateApiTokenStage::Updated { expiration, token, group, created_at },
                    ..self
                },
            ),
            (
                CreateApiTokenStage::Updated { expiration, token, group, created_at },
                Reply::Now(updated_at),
            ) => Outcome::Ask(
                CreateApiToken {
                    stage: CreateApiTokenStage::Insert {
                        expiration,
                        token,
                        group,
                        created_at,
                        updated_at,
                    },
                    ..self
                },
            ),
            (CreateApiTokenStage::Insert { token, .. }, Reply::Rows(Ok(_))) => Outcome::Done(
                Ok(CreateApiTokenResponse { api_token: token }),
            ),
            (CreateApiTokenStage::Insert { group, .. }, Reply::Rows(Err(e))) => Outcome::Done(
                Err(
                    failure(
                        Status::InternalServerError,
                        at(
                            "create_api_token"@,
                            "inserting token for group id="@ + decimal(group.id as int),
                        ),
                        e@,
                    ),
                ),
            ),
            _ => Outcome::Ask(self),
        }
    }

    open spec fn rank(&self) -> nat {
        match self.stage {
            CreateApiTokenStage::OpenDatabase => 8,
            CreateApiTokenStage::Clock => 7,
            CreateApiTokenStage::Secret { .. } => 6,
            CreateApiTokenStage::Sign { .. } => 5,
            CreateApiTokenStage::FindGroup { .. } => 4,
            CreateApiTokenStage::Created { .. } => 3,
            CreateApiTokenStage::Updated { .. } => 2,
            CreateApiTokenStage::Insert { .. } => 1,
        }
    }

    open spec fn speaks_as(name: Seq<char>) -> bool {
        name == "create_api_token"@
    }

    proof fn moves(self, reply: Reply) {
    }

    proof fn ignores(self, reply: Reply) {
    }

    proof fn reports(self, reply: Reply) {
        broadcast use refusal_is_reported, failure_is_reported;

        assert(Self::speaks_as("create_api_token"@));
    }

    fn need(&self) -> (r: Need) {
        match &self.stage {
            CreateApiTokenStage::OpenDatabase => Need::Query(Query::OpenDatabase),
            CreateApiTokenStage::Clock => Need::Task(Task::Clock),
            CreateApiTokenStage::Secret { .. } => Need::Query(
                Query::Variable("JWT_SECRET".to_owned()),
            ),
            CreateApiTokenStage::Sign { expiration, secret } => Need::Task(
                Task::SignClaims {
                    claims: claim_api_token(&self.claims, *expiration),
                    secret: secret.clone(),
                },
            ),
            CreateApiTokenStage::FindGroup { .. } => Need::Query(
                Query::FindGroup(GroupKey::Identifier(self.request.group_identifier.clone())),
            ),
            CreateApiTokenStage::Created { .. } => Need::Task(Task::Clock),
            CreateApiTokenStage::Updated { .. } => Need::Task(Task::Clock),
            CreateApiTokenStage::Insert {
                expiration,
                token,
                group,
                created_at,
                updated_at,
            } => Need::Query(
                Query::InsertApiToken(
                    NewApiToken {
                        parent_id: group.id,
                        expiry_date: day_of(*expiration),
                        created_at: *created_at,
                        updated_at: *updated_at,
                        is_active: true,
                        name: self.request.name.clone(),
                        token_str: Some(token.clone()),
                    },
                ),
            ),
        }
    }

    fn resume(self, reply: Reply) -> (r: Progress<Self, Self::Answer>) {
        match (self.stage, reply) {
            (CreateApiTokenStage::OpenDatabase, Reply::Done(Ok(_))) => Progress::Ask(
                CreateApiToken {
                    request: self.request,
                    claims: self.claims,
                    stage: CreateApiTokenStage::Clock,
                },
            ),
            (CreateApiTokenStage::OpenDatabase, Reply::Done(Err(e))) => Progress::Done(
                Err(
                    fail(
                        Status::ServiceUnavailable,
                        "create_api_token",
                        "failed to get DB connection",
                        e.as_str(),
                    ),
                ),
            ),
            (CreateApiTokenStage::Clock, Reply::Now(now)) => match moment_after(
                now,
                self.request.days_to_expire as i128 * 86_400,
            ) {
                Some(expiration) => Progress::Ask(
                    CreateApiToken {
                        request: self.request,
                        claims: self.claims,
                        stage: CreateApiTokenStage::Secret { expiration },
                    },
                ),
                None => Progress::Done(
                    Err(
                        refuse(
                            Status::BadRequest,
                            "create_api_token",
                            tell_days_beyond(self.request.days_to_expire).as_str(),
                        ),
                    ),
                ),
            },
            (CreateApiTokenStage::Secret { expiration }, Reply::Text(Ok(secret))) => Progress::Ask(
                CreateApiToken {
                    request: self.request,
                    claims: self.claims,
                    stage: CreateApiTokenStage::Sign { expiration, secret },
                },
            ),
            (CreateApiTokenStage::Secret { .. }, Reply::Text(Err(e))) => Progress::Done(
                Err(
                    fail(
                        Status::InternalServerError,
                        "create_api_token",
                        "reading JWT_SECRET env var",
                        e.as_str(),
                    ),
                ),
            ),
            (CreateApiTokenStage::Sign { expiration, .. }, Reply::Text(Ok(token))) => Progress::Ask(
                CreateApiToken {
                    request: self.request,
                    claims: self.claims,
                    stage: CreateApiTokenStage::FindGroup { expiration, token },
                },
            ),
            (CreateApiTokenStage::Sign { .. }, Reply::Text(Err(e))) => Progress::Done(
                Err(
                    fail(
                        Status::InternalServerError,
                        "create_api_token",
                        "encoding token",
                        e.as_str(),
                    ),
                ),
            ),
            (
                CreateApiTokenStage::FindGroup { expiration, token },
                Reply::Group(Ok(group)),
            ) => Progress::Ask(
                CreateApiToken {
                    request: self.request,
                    claims: self.claims,
                    stage: CreateApiTokenStage::Created { expiration, token, group },
                },
            ),
            (CreateApiTokenStage::FindGroup { .. }, Reply::Group(Err(e))) => Progress::Done(
                Err(
                    fail(
                        Status::NotFound,
                        "create_api_token",
                        "group '".to_owned()
                            .concat(self.request.group_identifier.as_str())
                            .concat("' not found").as_str(),
                        e.as_str(),
                    ),
                ),
            ),
            (
                CreateApiTokenStage::Created { expiration, token, group },
                Reply::Now(created_at),
            ) => Progress::Ask(
                CreateApiToken {
                    request: self.request,
                    claims: self.claims,
                    stage: CreateApiTokenStage::Updated { expiration, token, group, created_at },
                },
            ),
            (
                CreateApiTokenStage::Updated { expiration, token, group, created_at },
                Reply::Now(updated_at),
            ) => Progress::Ask(
                CreateApiToken {
                    request: self.request,
                    claims: self.claims,
                    stage: CreateApiTokenStage::Insert {
                        expiration,
                        token,
                        group,
                        created_at,
                        updated_at,
                    },
                },
            ),
            (CreateApiTokenStage::Insert { token, .. }, Reply::Rows(Ok(_))) => Progress::Done(
                Ok(CreateApiTokenResponse { api_token: token }),
            ),
            (CreateApiTokenStage::Insert { group, .. }, Reply::Rows(Err(e))) => Progress::Done(
                Err(
                    fail(
                        Status::InternalServerError,
                        "create_api_token",
                        "inserting token for group id=".to_owned().concat(
                            integer_text(group.id).as_str(),
                        ).as_str(),
                        e.as_str(),
                    ),
                ),
            ),
            (stage, _) => Progress::Ask(
                CreateApiToken { request: self.request, claims: self.claims, stage },
            ),
        }
    }
}

/// The exchange of an API token for a session token on its way.
pub struct CreateApiSessionToken {
    pub request: CreateSessionTokenRequest,
    pub stage: CreateApiSessionTokenStage,
}

/// How far [`CreateApiSessionToken`] has come: what it waits for.
pub enum CreateApiSessionTokenStage {
    OpenDatabase,
    FindToken,
    Clock { api_token: ApiToken, group: Group },
    Secret { api_token: ApiToken, group: Group, expiration: i64 },
    Sign { api_token: ApiToken, group: Group, expiration: i64, secret: String },
}

/// Starts the exchange of an API token for a session token of its group, which may
/// read and write.
pub fn create_api_session_token(request: CreateSessionTokenRequest) -> (r: CreateApiSessionToken)
    ensures
        r == (CreateApiSessionToken { request, stage: CreateApiSessionTokenStage::OpenDatabase }),
{
    CreateApiSessionToken { request, stage: CreateApiSessionTokenStage::OpenDatabase }
}

impl Handler for CreateApiSessionToken {
    type Answer = CreateSessionTokenResponse;

    open spec fn asks(&self) -> NeedView {
        match self.stage {
            CreateApiSessionTokenStage::OpenDatabase => NeedView::Query(QueryView::OpenDatabase),
            CreateApiSessionTokenStage::FindToken => NeedView::Query(
                QueryView::ActiveApiToken(self.request.api_token@),
            ),
            CreateApiSessionTokenStage::Clock { .. } => NeedView::Task(TaskView::Clock),
            CreateApiSessionTokenStage::Secret { .. } => NeedView::Query(
                QueryView::Variable("JWT_SECRET"@),
            ),
            CreateApiSessionTokenStage::Sign {
                api_token,
                group,
                expiration,
                secret,
            } => NeedView::Task(
                TaskView::SignApiClaims {
                    api_claims: session_claims(
                        group.identifier@,
                        expiration,
                        api_token.parent_id,
                        true,
                    ),
                    secret: secret@,
                },
            ),
        }
    }

    open spec fn next(self, reply: Reply) -> Outcome<Self, CreateSessionTokenResponse> {
        match (self.stage, reply) {
            (CreateApiSessionTokenStage::OpenDatabase, Reply::Done(Ok(_))) => Outcome::Ask(
                CreateApiSessionToken { stage: CreateApiSessionTokenStage::FindToken, ..self },
            ),
            (CreateApiSessionTokenStage::OpenDatabase, Reply::Done(Err(e))) => Outcome::Done(
                Err(
                    failure(
                        Status::ServiceUnavailable,
                        at("create_api_session_token"@, "failed to get DB connection"@),
                        e@,
                    ),
                ),
            ),
            (
                CreateApiSessionTokenStage::FindToken,
                Reply::MaybeApiToken(Ok(Some((api_token, group)))),
            ) => Outcome::Ask(
                CreateApiSessionToken {
                    stage: CreateApiSessionTokenStage::Clock { api_token, group },
                    ..self
                },
            ),
            (
                CreateApiSessionTokenStage::FindToken,
                Reply::MaybeApiToken(Ok(None)),
            ) => Outcome::Done(
                Err(
                    refusal(
                        Status::Unauthorized,
                        at("create_api_session_token"@, "API token not found or inactive"@),
                    ),
                ),
            ),
            (CreateApiSessionTokenStage::FindToken, Reply::MaybeApiToken(Err(e))) => Outcome::Done(
                Err(
                    failure(
                        Status::InternalServerError,
                        at("create_api_session_token"@, "looking up API token"@),
                        e@,
                    ),
                ),
            ),
            (
                CreateApiSessionTokenStage::Clock { api_token, group },
                Reply::Now(now),
            ) => match moment(now, session_lifetime(self.request.days_to_expire)) {
                Some(expiration) => Outcome::Ask(
                    CreateApiSessionToken {
                        stage: CreateApiSessionTokenStage::Secret { api_token, group, expiration },
                        ..self
                    },
                ),
                None => Outcome::Done(Err(session_beyond(self.request.days_to_expire))),
            },
            (
                CreateApiSessionTokenStage::Secret { api_token, group, expiration },
                Reply::Text(Ok(secret)),
            ) => Outcome::Ask(
                CreateApiSessionToken {
                    stage: CreateApiSessionTokenStage::Sign {
                        api_token,
                        group,
                        expiration,
                        secret,
                    },
                    ..self
                },
            ),
            (CreateApiSessionTokenStage::Secret { .. }, Reply::Text(Err(e))) => Outcome::Done(
                Err(
                    failure(
                        Status::InternalServerError,
                        at("create_api_session_token"@, "reading JWT_SECRET env var"@),
                        e@,
                    ),
                ),
            ),
            (
                CreateApiSessionTokenStage::Sign { group, .. },
                Reply::Text(Ok(session_token)),
            ) => Outcome::Done(
                Ok(
                    CreateSessionTokenResponse {
                        session_token,
                        group_identifier: group.identifier,
                    },
                ),
            ),
            (CreateApiSessionTokenStage::Sign { .. }, Reply::Text(Err(e))) => Outcome::Done(
                Err(
                    failure(
                        Status::InternalServerError,
                        at("create_api_session_token"@, "encoding session token"@),
                        e@,
                    ),
                ),
            ),
            _ => Outcome::Ask(self),
        }
    }

    open spec fn rank(&self) -> nat {
        match self.stage {
            CreateApiSessionTokenStage::OpenDatabase => 5,
            CreateApiSessionTokenStage::FindToken => 4,
            CreateApiSessionTokenStage::Clock { .. } => 3,
            CreateApiSessionTokenStage::Secret { .. } => 2,
            CreateApiSessionTokenStage::Sign { .. } => 1,
        }
    }

    open spec fn speaks_as(name: Seq<char>) -> bool {
        name == "create_api_session_token"@
    }

    proof fn moves(self, reply: Reply) {
    }

    proof fn ignores(self, reply: Reply) {
    }

    proof fn reports(self, reply: Reply) {
        broadcast use refusal_is_reported, failure_is_reported;

        assert(Self::speaks_as("create_api_session_token"@));
    }

    fn need(&self) -> (r: Need) {
        match &self.stage {
            CreateApiSessionTokenStage::OpenDatabase => Need::Query(Query::OpenDatabase),
            CreateApiSessionTokenStage::FindToken => Need::Query(
                Query::ActiveApiToken(self.request.api_token.clone()),
            ),
            CreateApiSessionTokenStage::Clock { .. } => Need::Task(Task::Clock),
            CreateApiSessionTokenStage::Secret { .. } => Need::Query(
                Query::Variable("JWT_SECRET".to_owned()),
            ),
            CreateApiSessionTokenStage::Sign { api_token, group, expiration, secret } => Need::Task(
                Task::SignApiClaims {
                    api_claims: claim_session(
                        group.identifier.as_str(),
                        *expiration,
                        api_token.parent_id,
                        true,
                    ),
                    secret: secret.clone(),
                },
            ),
        }
    }

    fn resume(self, reply: Reply) -> (r: Progress<Self, Self::Answer>) {
        match (self.stage, reply) {
            (CreateApiSessionTokenStage::OpenDatabase, Reply::Done(Ok(_))) => Progress::Ask(
                CreateApiSessionToken {
                    request: self.request,
                    stage: CreateApiSessionTokenStage::FindToken,
                },
            ),
            (CreateApiSessionTokenStage::OpenDatabase, Reply::Done(Err(e))) => Progress::Done(
                Err(
                    fail(
                        Status::ServiceUnavailable,
                        "create_api_session_token",
                        "failed to get DB connection",
                        e.as_str(),
                    ),
                ),
            ),
            (
                CreateApiSessionTokenStage::FindToken,
                Reply::MaybeApiToken(Ok(Some((api_token, group)))),
            ) => Progress::Ask(
                CreateApiSessionToken {
                    request: self.request,
                    stage: CreateApiSessionTokenStage::Clock { api_token, group },
                },
            ),
            (
                CreateApiSessionTokenStage::FindToken,
                Reply::MaybeApiToken(Ok(None)),
            ) => Progress::Done(
                Err(
                    refuse(
                        Status::Unauthorized,
                        "create_api_session_token",
                        "API token not found or inactive",
                    ),
                ),
            ),
            (CreateApiSessionTokenStage::FindToken, Reply::MaybeApiToken(Err(e))) => Progress::Done(
                Err(
                    fail(
                        Status::InternalServerError,
                        "create_api_session_token",
                        "looking up API token",
                        e.as_str(),
                    ),
                ),
            ),
            (
                CreateApiSessionTokenStage::Clock { api_token, group },
                Reply::Now(now),
            ) => match moment_after(now, session_seconds(self.request.days_to_expire)) {
                Some(expiration) => Progress::Ask(
                    CreateApiSessionToken {
                        request: self.request,
                        stage: CreateApiSessionTokenStage::Secret { api_token, group, expiration },
                    },
                ),
                None => Progress::Done(Err(refuse_session_beyond(self.request.days_to_expire))),
            },
            (
                CreateApiSessionTokenStage::Secret { api_token, group, expiration },
                Reply::Text(Ok(secret)),
            ) => Progress::Ask(
                CreateApiSessionToken {
                    request: self.request,
                    stage: CreateApiSessionTokenStage::Sign {
                        api_token,
                        group,
                        expiration,
                        secret,
                    },
                },
            ),
            (CreateApiSessionTokenStage::Secret { .. }, Reply::Text(Err(e))) => Progress::Done(
                Err(
                    fail(
                        Status::InternalServerError,
                        "create_api_session_token",
                        "reading JWT_SECRET env var",
                        e.as_str(),
                    ),
                ),
            ),
            (
                CreateApiSessionTokenStage::Sign { group, .. },
                Reply::Text(Ok(session_token)),
            ) => Progress::Done(
                Ok(
                    CreateSessionTokenResponse {
                        session_token,
                        group_identifier: group.identifier,
                    },
                ),
            ),
            (CreateApiSessionTokenStage::Sign { .. }, Reply::Text(Err(e))) => Progress::Done(
                Err(
                    fail(
                        Status::InternalServerError,
                        "create_api_session_token",
                        "encoding session token",
                        e.as_str(),
                    ),
                ),
            ),
            (stage, _) => Progress::Ask(CreateApiSessionToken { request: self.request, stage }),
        }
    }
}

/// The making of a session token for a user on its way.
pub struct InteractiveSessionToken {
    pub group_identifier: String,
    pub groups_ownerships: GroupOwnerships,
    pub stage: InteractiveSessionTokenStage,
}

/// How far [`InteractiveSessionToken`] has come: what it waits for.
pub enum InteractiveSessionTokenStage {
    OpenDatabase,
    FindGroup,
    Clock { group: Group },
    Secret { group: Group, expiration: i64 },
    Sign { group: Group, expiration: i64, secret: String },
}

/// Starts the making of a session token of a group for a developer who is signed
/// in. It holds for ten hours and may write only if they own the group.
pub fn create_api_session_token_interactive(
    _claims: Claims,
    group_identifier: String,
    groups_ownerships: GroupOwnerships,
) -> (r: InteractiveSessionToken)
    ensures
        r == (
            InteractiveSessionToken {
                group_identifier,
                groups_ownerships,
                stage: InteractiveSessionTokenStage::OpenDatabase,
            }
        ),
{
    InteractiveSessionToken {
        group_identifier,
        groups_ownerships,
        stage: InteractiveSessionTokenStage::OpenDatabase,
    }
}

impl Handler for InteractiveSessionToken {
    type Answer = CreateSessionTokenResponse;

    open spec fn asks(&self) -> NeedView {
        match self.stage {
            InteractiveSessionTokenStage::OpenDatabase => NeedView::Query(QueryView::OpenDatabase),
            InteractiveSessionTokenStage::FindGroup => NeedView::Query(
                QueryView::MaybeGroup(GroupKey::Identifier(self.group_identifier)),
            ),
            InteractiveSessionTokenStage::Clock { .. } => NeedView::Task(TaskView::Clock),
            InteractiveSessionTokenStage::Secret { .. } => NeedView::Query(
                QueryView::Variable("JWT_SECRET"@),
            ),
            InteractiveSessionTokenStage::Sign { group, expiration, secret } => NeedView::Task(
                TaskView::SignApiClaims {
                    api_claims: session_claims(
                        group.identifier@,
                        expiration,
                        group.id,
                        texts(self.groups_ownerships.0@).contains(self.group_identifier@),
                    ),
                    secret: secret@,
                },
            ),
        }
    }

    open spec fn next(self, reply: Reply) -> Outcome<Self, CreateSessionTokenResponse> {
        match (self.stage, reply) {
            (InteractiveSessionTokenStage::OpenDatabase, Reply::Done(Ok(_))) => Outcome::Ask(
                InteractiveSessionToken { stage: InteractiveSessionTokenStage::FindGroup, ..self },
            ),
            (InteractiveSessionTokenStage::OpenDatabase, Reply::Done(Err(e))) => Outcome::Done(
                Err(
                    failure(
                        Status::ServiceUnavailable,
                        at("create_api_session_token_interactive"@, "failed to get DB connection"@),
                        e@,
                    ),
                ),
            ),
            (
                InteractiveSessionTokenStage::FindGroup,
                Reply::MaybeGroup(Ok(Some(group))),
            ) => Outcome::Ask(
                InteractiveSessionToken {
                    stage: InteractiveSessionTokenStage::Clock { group },
                    ..self
                },
            ),
            (InteractiveSessionTokenStage::FindGroup, Reply::MaybeGroup(Ok(None))) => Outcome::Done(
                Err(
                    refusal(
                        Status::NotFound,
                        at(
                            "create_api_session_token_interactive"@,
                            "group '"@ + self.group_identifier@ + "' not found"@,
                        ),
                    ),
                ),
            ),
            (InteractiveSessionTokenStage::FindGroup, Reply::MaybeGroup(Err(e))) => Outcome::Done(
                Err(
                    failure(
                        Status::InternalServerError,
                        at(
                            "create_api_session_token_interactive"@,
                            "looking up group '"@ + self.group_identifier@ + "'"@,
                        ),
                        e@,
                    ),
                ),
            ),
            (InteractiveSessionTokenStage::Clock { group }, Reply::Now(now)) => match moment(
                now,
                36_000,
            ) {
                Some(expiration) => Outcome::Ask(
                    InteractiveSessionToken {
                        stage: InteractiveSessionTokenStage::Secret { group, expiration },
                        ..self
                    },
                ),
                None => Outcome::Done(
                    Err(
                        refusal(
                            Status::InternalServerError,
                            at(
                                "create_api_session_token_interactive"@,
                                "the expiry is beyond the calendar"@,
                            ),
                        ),
                    ),
                ),
            },
            (
                InteractiveSessionTokenStage::Secret { group, expiration },
                Reply::Text(Ok(secret)),
            ) => Outcome::Ask(
                InteractiveSessionToken {
                    stage: InteractiveSessionTokenStage::Sign { group, expiration, secret },
                    ..self
                },
            ),
            (InteractiveSessionTokenStage::Secret { .. }, Reply::Text(Err(e))) => Outcome::Done(
                Err(
                    failure(
                        Status::InternalServerError,
                        at("create_api_session_token_interactive"@, "reading JWT_SECRET env var"@),
                        e@,
                    ),
                ),
            ),
            (
                InteractiveSessionTokenStage::Sign { group, .. },
                Reply::Text(Ok(session_token)),
            ) => Outcome::Done(
                Ok(
                    CreateSessionTokenResponse {
                        session_token,
                        group_identifier: group.identifier,
                    },
                ),
            ),
            (InteractiveSessionTokenStage::Sign { .. }, Reply::Text(Err(e))) => Outcome::Done(
                Err(
                    failure(
                        Status::InternalServerError,
                        at("create_api_session_token_interactive"@, "encoding session token"@),
                        e@,
                    ),
                ),
            ),
            _ => Outcome::Ask(self),
        }
    }

    open spec fn rank(&self) -> nat {
        match self.stage {
            InteractiveSessionTokenStage::OpenDatabase => 5,
            InteractiveSessionTokenStage::FindGroup => 4,
            InteractiveSessionTokenStage::Clock { .. } => 3,
            InteractiveSessionTokenStage::Secret { .. } => 2,
            InteractiveSessionTokenStage::Sign { .. } => 1,
        }
    }

    open spec fn speaks_as(name: Seq<char>) -> bool {
        name == "create_api_session_token_interactive"@
    }

    proof fn moves(self, reply: Reply) {
    }

    proof fn ignores(self, reply: Reply) {
    }

    proof fn reports(self, reply: Reply) {
        broadcast use refusal_is_reported, failure_is_reported;

        assert(Self::speaks_as("create_api_session_token_interactive"@));
    }

    fn need(&self) -> (r: Need) {
        match &self.stage {
            InteractiveSessionTokenStage::OpenDatabase => Need::Query(Query::OpenDatabase),
            InteractiveSessionTokenStage::FindGroup => Need::Query(
                Query::MaybeGroup(GroupKey::Identifier(self.group_identifier.clone())),
            ),
            InteractiveSessionTokenStage::Clock { .. } => Need::Task(Task::Clock),
            InteractiveSessionTokenStage::Secret { .. } => Need::Query(
                Query::Variable("JWT_SECRET".to_owned()),
            ),
            InteractiveSessionTokenStage::Sign { group, expiration, secret } => Need::Task(
                Task::SignApiClaims {
                    api_claims: claim_session(
                        group.identifier.as_str(),
                        *expiration,
                        group.id,
                        contains_text(&self.groups_ownerships.0, self.group_identifier.as_str()),
                    ),
                    secret: secret.clone(),
                },
            ),
        }
    }

    fn resume(self, reply: Reply) -> (r: Progress<Self, Self::Answer>) {
        match (self.stage, reply) {
            (InteractiveSessionTokenStage::OpenDatabase, Reply::Done(Ok(_))) => Progress::Ask(
                InteractiveSessionToken {
                    group_identifier: self.group_identifier,
                    groups_ownerships: self.groups_ownerships,
                    stage: InteractiveSessionTokenStage::FindGroup,
                },
            ),
            (InteractiveSessionTokenStage::OpenDatabase, Reply::Done(Err(e))) => Progress::Done(
                Err(
                    fail(
                        Status::ServiceUnavailable,
                        "create_api_session_token_interactive",
                        "failed to get DB connection",
                        e.as_str(),
                    ),
                ),
            ),
            (
                InteractiveSessionTokenStage::FindGroup,
                Reply::MaybeGroup(Ok(Some(group))),
            ) => Progress::Ask(
                InteractiveSessionToken {
                    group_identifier: self.group_identifier,
                    groups_ownerships: self.groups_ownerships,
                    stage: InteractiveSessionTokenStage::Clock { group },
                },
            ),
            (
                InteractiveSessionTokenStage::FindGroup,
                Reply::MaybeGroup(Ok(None)),
            ) => Progress::Done(
                Err(
                    refuse(
                        Status::NotFound,
                        "create_api_session_token_interactive",
                        "group '".to_owned()
                            .concat(self.group_identifier.as_str())
                            .concat("' not found").as_str(),
                    ),
                ),
            ),
            (InteractiveSessionTokenStage::FindGroup, Reply::MaybeGroup(Err(e))) => Progress::Done(
                Err(
                    fail(
                        Status::InternalServerError,
                        "create_api_session_token_interactive",
                        "looking up group '".to_owned()
                            .concat(self.group_identifier.as_str())
                            .concat("'").as_str(),
                        e.as_str(),
                    ),
                ),
            ),
            (InteractiveSessionTokenStage::Clock { group }, Reply::Now(now)) => match moment_after(
                now,
                10 * 60 * 60,
            ) {
                Some(expiration) => Progress::Ask(
                    InteractiveSessionToken {
                        group_identifier: self.group_identifier,
                        groups_ownerships: self.groups_ownerships,
                        stage: InteractiveSessionTokenStage::Secret { group, expiration },
                    },
                ),
                None => Progress::Done(
                    Err(
                        refuse(
                            Status::InternalServerError,
                            "create_api_session_token_interactive",
                            "the expiry is beyond the calendar",
                        ),
                    ),
                ),
            },
            (
                InteractiveSessionTokenStage::Secret { group, expiration },
                Reply::Text(Ok(secret)),
            ) => Progress::Ask(
                InteractiveSessionToken {
                    group_identifier: self.group_identifier,
                    groups_ownerships: self.groups_ownerships,
                    stage: InteractiveSessionTokenStage::Sign { group, expiration, secret },
                },
            ),
            (InteractiveSessionTokenStage::Secret { .. }, Reply::Text(Err(e))) => Progress::Done(
                Err(
                    fail(
                        Status::InternalServerError,
                        "create_api_session_token_interactive",
                        "reading JWT_SECRET env var",
                        e.as_str(),
                    ),
                ),
            ),
            (
                InteractiveSessionTokenStage::Sign { group, .. },
                Reply::Text(Ok(session_token)),
            ) => Progress::Done(
                Ok(
                    CreateSessionTokenResponse {
                        session_token,
                        group_identifier: group.identifier,
                    },
                ),
            ),
            (InteractiveSessionTokenStage::Sign { .. }, Reply::Text(Err(e))) => Progress::Done(
                Err(
                    fail(
                        Status::InternalServerError,
                        "create_api_session_token_interactive",
                        "encoding session token",
                        e.as_str(),
                    ),
                ),
            ),
            (stage, _) => Progress::Ask(
                InteractiveSessionToken {
                    group_identifier: self.group_identifier,
                    groups_ownerships: self.groups_ownerships,
                    stage,
                },
            ),
        }
    }
}

/// An API token as its group sees it: without its text.
pub open spec fn token_info(token: ApiToken) -> GroupApiTokenResponse {
    GroupApiTokenResponse {
        expiry_date: token.expiry_date,
        created_at: token.created_at,
        is_active: token.is_active,
        name: token.name,
        pk: token.id,
    }
}

/// API tokens as their group sees them.
pub open spec fn tokens_info(tokens: Seq<ApiToken>) -> Seq<GroupApiTokenResponse> {
    tokens.map_values(|t: ApiToken| token_info(t))
}

/// Lists API tokens as their group sees them.
pub fn list_tokens(tokens: &Vec<ApiToken>) -> (r: Vec<GroupApiTokenResponse>)
    ensures
        r@ == tokens_info(tokens@),
{
    let mut r: Vec<GroupApiTokenResponse> = Vec::new();
    let mut i: usize = 0;
    while i < tokens.len()
        invariant
            i <= tokens.len(),
            r@.len() == i,
            forall|j: int| 0 <= j < i ==> #[trigger] r@[j] == token_info(tokens@[j]),
        decreases tokens.len() - i,
    {
        let t = &tokens[i];
        r.push(
            GroupApiTokenResponse {
                expiry_date: t.expiry_date,
                created_at: t.created_at,
                is_active: t.is_active,
                name: t.name.clone(),
                pk: t.id,
            },
        );
        i = i + 1;
    }
    assert(r@ =~= tokens_info(tokens@));
    r
}

/// A question for the API tokens of a group on its way.
pub struct GetApiTokens {
    pub group_identifier: String,
    pub stage: GetApiTokensStage,
}

/// How far [`GetApiTokens`] has come: what it waits for.
pub enum GetApiTokensStage {
    OpenDatabase,
    FindGroup,
    Load { group: Group },
}

/// Starts a question for the API tokens of a group.
pub fn get_api_tokens_by_group(group_identifier: String) -> (r: GetApiTokens)
    ensures
        r == (GetApiTokens { group_identifier, stage: GetApiTokensStage::OpenDatabase }),
{
    GetApiTokens { group_identifier, stage: GetApiTokensStage::OpenDatabase }
}

impl Handler for GetApiTokens {
    type Answer = Vec<GroupApiTokenResponse>;

    open spec fn asks(&self) -> NeedView {
        match self.stage {
            GetApiTokensStage::OpenDatabase => NeedView::Query(QueryView::OpenDatabase),
            GetApiTokensStage::FindGroup => NeedView::Query(
                QueryView::MaybeGroup(GroupKey::Identifier(self.group_identifier)),
            ),
            GetApiTokensStage::Load { group } => NeedView::Query(QueryView::ApiTokensOf(group.id)),
        }
    }

    open spec fn next(self, reply: Reply) -> Outcome<Self, Seq<GroupApiTokenResponse>> {
        match (self.stage, reply) {
            (GetApiTokensStage::OpenDatabase, Reply::Done(Ok(_))) => Outcome::Ask(
                GetApiTokens { stage: GetApiTokensStage::FindGroup, ..self },
            ),
            (GetApiTokensStage::OpenDatabase, Reply::Done(Err(e))) => Outcome::Done(
                Err(
                    failure(
                        Status::ServiceUnavailable,
                        at("get_api_tokens_by_group"@, "failed to get DB connection"@),
                        e@,
                    ),
                ),
            ),
            (GetApiTokensStage::FindGroup, Reply::MaybeGroup(Ok(Some(group)))) => Outcome::Ask(
                GetApiTokens { stage: GetApiTokensStage::Load { group }, ..self },
            ),
            (GetApiTokensStage::FindGroup, Reply::MaybeGroup(Ok(None))) => Outcome::Done(
                Err(
                    refusal(
                        Status::NotFound,
                        at(
                            "get_api_tokens_by_group"@,
                            "group '"@ + self.group_identifier@ + "' not found"@,
                        ),
                    ),
                ),
            ),
            (GetApiTokensStage::FindGroup, Reply::MaybeGroup(Err(e))) => Outcome::Done(
                Err(
                    failure(
                        Status::InternalServerError,
                        at(
                            "get_api_tokens_by_group"@,
                            "looking up group '"@ + self.group_identifier@ + "'"@,
                        ),
                        e@,
                    ),
                ),
            ),
            (GetApiTokensStage::Load { .. }, Reply::ApiTokens(Ok(tokens))) => Outcome::Done(
                Ok(tokens_info(tokens@)),
            ),
            (GetApiTokensStage::Load { group }, Reply::ApiTokens(Err(e))) => Outcome::Done(
                Err(
                    failure(
                        Status::InternalServerError,
                        at(
                            "get_api_tokens_by_group"@,
                            "loading tokens for group id="@ + decimal(group.id as int),
                        ),
                        e@,
                    ),
                ),
            ),
            _ => Outcome::Ask(self),
        }
    }

    open spec fn rank(&self) -> nat {
        match self.stage {
            GetApiTokensStage::OpenDatabase => 3,
            GetApiTokensStage::FindGroup => 2,
            GetApiTokensStage::Load { .. } => 1,
        }
    }

    open spec fn speaks_as(name: Seq<char>) -> bool {
        name == "get_api_tokens_by_group"@
    }

    proof fn moves(self, reply: Reply) {
    }

    proof fn ignores(self, reply: Reply) {
    }

    proof fn reports(self, reply: Reply) {
        broadcast use refusal_is_reported, failure_is_reported;

        assert(Self::speaks_as("get_api_tokens_by_group"@));
    }

    fn need(&self) -> (r: Need) {
        match &self.stage {
            GetApiTokensStage::OpenDatabase => Need::Query(Query::OpenDatabase),
            GetApiTokensStage::FindGroup => Need::Query(
                Query::MaybeGroup(GroupKey::Identifier(self.group_identifier.clone())),
            ),
            GetApiTokensStage::Load { group } => Need::Query(Query::ApiTokensOf(group.id)),
        }
    }

    fn resume(self, reply: Reply) -> (r: Progress<Self, Self::Answer>) {
        match (self.stage, reply) {
            (GetApiTokensStage::OpenDatabase, Reply::Done(Ok(_))) => Progress::Ask(
                GetApiTokens {
                    group_identifier: self.group_identifier,
                    stage: GetApiTokensStage::FindGroup,
                },
            ),
            (GetApiTokensStage::OpenDatabase, Reply::Done(Err(e))) => Progress::Done(
                Err(
                    fail(
                        Status::ServiceUnavailable,
                        "get_api_tokens_by_group",
                        "failed to get DB connection",
                        e.as_str(),
                    ),
                ),
            ),
            (GetApiTokensStage::FindGroup, Reply::MaybeGroup(Ok(Some(group)))) => Progress::Ask(
                GetApiTokens {
                    group_identifier: self.group_identifier,
                    stage: GetApiTokensStage::Load { group },
                },
            ),
            (GetApiTokensStage::FindGroup, Reply::MaybeGroup(Ok(None))) => Progress::Done(
                Err(
                    refuse(
                        Status::NotFound,
                        "get_api_tokens_by_group",
                        "group '".to_owned()
                            .concat(self.group_identifier.as_str())
                            .concat("' not found").as_str(),
                    ),
                ),
            ),
            (GetApiTokensStage::FindGroup, Reply::MaybeGroup(Err(e))) => Progress::Done(
                Err(
                    fail(
                        Status::InternalServerError,
                        "get_api_tokens_by_group",
                        "looking up group '".to_owned()
                            .concat(self.group_identifier.as_str())
                            .concat("'").as_str(),
                        e.as_str(),
                    ),
                ),
            ),
            (GetApiTokensStage::Load { .. }, Reply::ApiTokens(Ok(tokens))) => Progress::Done(
                Ok(list_tokens(&tokens)),
            ),
            (GetApiTokensStage::Load { group }, Reply::ApiTokens(Err(e))) => Progress::Done(
                Err(
                    fail(
                        Status::InternalServerError,
                        "get_api_tokens_by_group",
                        "loading tokens for group id=".to_owned().concat(
                            integer_text(group.id).as_str(),
                        ).as_str(),
                        e.as_str(),
                    ),
                ),
            ),
            (stage, _) => Progress::Ask(
                GetApiTokens { group_identifier: self.group_identifier, stage },
            ),
        }
    }
}

/// The deactivation of an API token on its way.
pub struct DeactivateApiToken {
    pub token_id: i64,
    pub stage: DeactivateApiTokenStage,
}

/// How far [`DeactivateApiToken`] has come: what it waits for.
pub enum DeactivateApiTokenStage {
    OpenDatabase,
    FindToken,
    Store,
}

/// Starts the deactivation of an API token.
pub fn deactivate_api_token(token_id: i64) -> (r: DeactivateApiToken)
    ensures
        r == (DeactivateApiToken { token_id, stage: DeactivateApiTokenStage::OpenDatabase }),
{
    DeactivateApiToken { token_id, stage: DeactivateApiTokenStage::OpenDatabase }
}

impl Handler for DeactivateApiToken {
    type Answer = MessageResponse;

    open spec fn asks(&self) -> NeedView {
        match self.stage {
            DeactivateApiTokenStage::OpenDatabase => NeedView::Query(QueryView::OpenDatabase),
            DeactivateApiTokenStage::FindToken => NeedView::Query(
                QueryView::ApiTokenById(self.token_id),
            ),
            DeactivateApiTokenStage::Store => NeedView::Query(
                QueryView::DeactivateApiToken(self.token_id),
            ),
        }
    }

    open spec fn next(self, reply: Reply) -> Outcome<Self, Seq<char>> {
        match (self.stage, reply) {
            (DeactivateApiTokenStage::OpenDatabase, Reply::Done(Ok(_))) => Outcome::Ask(
                DeactivateApiToken { stage: DeactivateApiTokenStage::FindToken, ..self },
            ),
            (DeactivateApiTokenStage::OpenDatabase, Reply::Done(Err(e))) => Outcome::Done(
                Err(
                    failure(
                        Status::ServiceUnavailable,
                        at("deactivate_api_token"@, "failed to get DB connection"@),
                        e@,
                    ),
                ),
            ),
            (DeactivateApiTokenStage::FindToken, Reply::ApiToken(Ok(Some(_)))) => Outcome::Ask(
                DeactivateApiToken { stage: DeactivateApiTokenStage::Store, ..self },
            ),
            (DeactivateApiTokenStage::FindToken, Reply::ApiToken(Ok(None))) => Outcome::Done(
                Err(
                    refusal(
                        Status::NotFound,
                        at(
                            "deactivate_api_token"@,
                            "token id="@ + decimal(self.token_id as int) + " not found"@,
                        ),
                    ),
                ),
            ),
            (DeactivateApiTokenStage::FindToken, Reply::ApiToken(Err(e))) => Outcome::Done(
                Err(
                    failure(
                        Status::InternalServerError,
                        at(
                            "deactivate_api_token"@,
                            "looking up token id="@ + decimal(self.token_id as int),
                        ),
                        e@,
                    ),
                ),
            ),
            (DeactivateApiTokenStage::Store, Reply::Rows(Ok(_))) => Outcome::Done(
                Ok(
                    "API token with id '"@ + decimal(self.token_id as int)
                        + "' has been deactivated"@,
                ),
            ),
            (DeactivateApiTokenStage::Store, Reply::Rows(Err(e))) => Outcome::Done(
                Err(
                    failure(
                        Status::InternalServerError,
                        at(
                            "deactivate_api_token"@,
                            "deactivating token id="@ + decimal(self.token_id as int),
                        ),
                        e@,
                    ),
                ),
            ),
            _ => Outcome::Ask(self),
        }
    }

    open spec fn rank(&self) -> nat {
        match self.stage {
            DeactivateApiTokenStage::OpenDatabase => 3,
            DeactivateApiTokenStage::FindToken => 2,
            DeactivateApiTokenStage::Store => 1,
        }
    }

    open spec fn speaks_as(name: Seq<char>) -> bool {
        name == "deactivate_api_token"@
    }

    proof fn moves(self, reply: Reply) {
    }

    proof fn ignores(self, reply: Reply) {
    }

    proof fn reports(self, reply: Reply) {
        broadcast use refusal_is_reported, failure_is_reported;

        assert(Self::speaks_as("deactivate_api_token"@));
    }

    fn need(&self) -> (r: Need) {
        match &self.stage {
            DeactivateApiTokenStage::OpenDatabase => Need::Query(Query::OpenDatabase),
            DeactivateApiTokenStage::FindToken => Need::Query(Query::ApiTokenById(self.token_id)),
            DeactivateApiTokenStage::Store => Need::Query(Query::DeactivateApiToken(self.token_id)),
        }
    }

    fn resume(self, reply: Reply) -> (r: Progress<Self, Self::Answer>) {
        match (self.stage, reply) {
            (DeactivateApiTokenStage::OpenDatabase, Reply::Done(Ok(_))) => Progress::Ask(
                DeactivateApiToken {
                    token_id: self.token_id,
                    stage: DeactivateApiTokenStage::FindToken,
                },
            ),
            (DeactivateApiTokenStage::OpenDatabase, Reply::Done(Err(e))) => Progress::Done(
                Err(
                    fail(
                        Status::ServiceUnavailable,
                        "deactivate_api_token",
                        "failed to get DB connection",
                        e.as_str(),
                    ),
                ),
            ),
            (DeactivateApiTokenStage::FindToken, Reply::ApiToken(Ok(Some(_)))) => Progress::Ask(
                DeactivateApiToken {
                    token_id: self.token_id,
                    stage: DeactivateApiTokenStage::Store,
                },
            ),
            (DeactivateApiTokenStage::FindToken, Reply::ApiToken(Ok(None))) => Progress::Done(
                Err(
                    refuse(
                        Status::NotFound,
                        "deactivate_api_token",
                        "token id=".to_owned()
                            .concat(integer_text(self.token_id).as_str())
                            .concat(" not found").as_str(),
                    ),
                ),
            ),
            (DeactivateApiTokenStage::FindToken, Reply::ApiToken(Err(e))) => Progress::Done(
                Err(
                    fail(
                        Status::InternalServerError,
                        "deactivate_api_token",
                        "looking up token id=".to_owned().concat(
                            integer_text(self.token_id).as_str(),
                        ).as_str(),
                        e.as_str(),
                    ),
                ),
            ),
            (DeactivateApiTokenStage::Store, Reply::Rows(Ok(_))) => Progress::Done(
                Ok(
                    MessageResponse {
                        message: "API token with id '".to_owned()
                            .concat(integer_text(self.token_id).as_str())
                            .concat("' has been deactivated"),
                    },
                ),
            ),
            (DeactivateApiTokenStage::Store, Reply::Rows(Err(e))) => Progress::Done(
                Err(
                    fail(
                        Status::InternalServerError,
                        "deactivate_api_token",
                        "deactivating token id=".to_owned().concat(
                            integer_text(self.token_id).as_str(),
                        ).as_str(),
                        e.as_str(),
                    ),
                ),
            ),
            (stage, _) => Progress::Ask(DeactivateApiToken { token_id: self.token_id, stage }),
        }
    }
}

} // verus!
