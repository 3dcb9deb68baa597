//! How a handler talks to the rest of the world: it asks one thing at a time,
//! and each reply moves it on, until it answers.
//!
//! What the database, the cache, the environment and the mail service are asked
//! is a [`Query`]; what the crate does itself is a [`Task`].

use crate::error::{
    failure_is_reported, refusal_is_reported, reported_by, ApiError, Failure,
};
use crate::models::{
    APIClaims, APIClaimsView, ApiToken, App, AppChanges, AppListing, Claims, ClaimsView, Email,
    EmailView, Group, GroupKey, InviteRequest, Member, NewApiToken, NewApp, NewAppView, NewGroup,
    NewUser, PendingRegistration, TokenOrder, TokenOrderView, UpdateProfileRequest, User,
};
use crate::outside::clock::{clocked, read_clock, shown};
use crate::outside::json::{json_of_list, list_of_json, read_list, reads_as, write_list};
use crate::outside::jwt::{
    api_claims_of_jwt, claims_of_jwt, decode_claims, decoded, jwt_of_api_claims, jwt_of_claims,
    sign_api_claims, sign_claims,
};
use crate::outside::passwords::{accepts, bcrypt_verify, hashed, make_hash, verify_password};
use crate::outside::random::{draw_text, drawn, token_of};
use crate::outside::{told, told_text, told_texts};
use crate::text::texts;
use crate::tokens::{create_jwt, settled_text, token_made};
use vstd::prelude::*;

verus! {

/// What is asked of a service outside. A text that comes back as an error is the
/// debug text of the service's error.
pub enum Query {
    /// Take a connection to the database.
    OpenDatabase,
    /// Take a connection to the cache.
    OpenCache,
    /// The account with this email address.
    UserByEmail(String),
    /// The account with this email address, if there is one.
    MaybeUserByEmail(String),
    /// Overwrite the password hash of the account with this email address.
    SetPasswordByEmail { email: String, hash: String },
    /// Overwrite the password hash of the account with this id.
    SetPasswordById { id: i64, hash: String },
    /// Overwrite the names and the number of the account with this id.
    UpdateProfile { id: i64, profile: UpdateProfileRequest },
    /// Store an account.
    InsertUser(NewUser),
    /// The identifiers of the groups that a user is a member of.
    GroupsOfUser(i64),
    /// The group with this key.
    FindGroup(GroupKey),
    /// The group with this key, if there is one.
    MaybeGroup(GroupKey),
    /// The id of the group with this key, if there is one.
    MaybeGroupId(GroupKey),
    /// Store a group.
    InsertGroup(NewGroup),
    /// Make a user a member of a group.
    AddMember { user: i64, group: i64 },
    /// Make a user an owner of a group.
    AddOwner { user: i64, group: i64 },
    /// Make a user no member of a group.
    RemoveMember { user: i64, group: i64 },
    /// Make a user no owner of a group.
    RemoveOwner { user: i64, group: i64 },
    /// The members of a group.
    MembersOf(i64),
    /// The ids of the members of a group.
    MemberIdsOf(i64),
    /// The ids of the owners of a group.
    OwnersOf(i64),
    /// The application with this client id that is not disabled.
    EnabledApp(String),
    /// The id of the application with this client id, if its group is one of these, by
    /// identifier or by id.
    AppOfGroups { client_id: String, identifiers: Vec<String>, ids: Vec<i64> },
    /// All applications, each with the identifier of its group.
    AppListings,
    /// The application with this client id, if there is one.
    MaybeApp(String),
    /// Overwrite fields of the application with this id.
    UpdateApp { id: i64, changes: AppChanges },
    /// Store an application.
    InsertApp(NewApp),
    /// Store an API token.
    InsertApiToken(NewApiToken),
    /// The active API token with this text and its group, if there is one.
    ActiveApiToken(String),
    /// The API tokens of a group.
    ApiTokensOf(i64),
    /// The API token with this id, if there is one.
    ApiTokenById(i64),
    /// Make the API token with this id inactive.
    DeactivateApiToken(i64),
    /// The text that is cached under a key.
    CacheText(String),
    /// The text that is cached under a key, if there is one.
    CacheMaybeText(String),
    /// The number that is cached under a key.
    CacheId(String),
    /// Cache a text under a key for some seconds.
    CachePut { key: String, value: String, seconds: u64 },
    /// Forget what is cached under a key.
    CacheDrop(String),
    /// Whether anything is cached under a key.
    CacheHas(String),
    /// The value of a variable of the environment.
    Variable(String),
    /// Send a message, authorized by a key.
    SendEmail { api_key: String, message: Email },
    /// A pending registration as text.
    WritePending(PendingRegistration),
    /// The pending registration that a text holds.
    ReadPending(String),
    /// The invitation that a text holds.
    ReadInvite(String),
}

/// [`Query`] as texts.
pub enum QueryView {
    /// Take a connection to the database.
    OpenDatabase,
    /// Take a connection to the cache.
    OpenCache,
    /// The account with this email address.
    UserByEmail(Seq<char>),
    /// The account with this email address, if there is one.
    MaybeUserByEmail(Seq<char>),
    /// Overwrite the password hash of the account with this email address.
    SetPasswordByEmail { email: Seq<char>, hash: Seq<char> },
    /// Overwrite the password hash of the account with this id.
    SetPasswordById { id: i64, hash: Seq<char> },
    /// Overwrite the names and the number of the account with this id.
    UpdateProfile { id: i64, profile: UpdateProfileRequest },
    /// Store an account.
    InsertUser(NewUser),
    /// The identifiers of the groups that a user is a member of.
    GroupsOfUser(i64),
    /// The group with this key.
    FindGroup(GroupKey),
    /// The group with this key, if there is one.
    MaybeGroup(GroupKey),
    /// The id of the group with this key, if there is one.
    MaybeGroupId(GroupKey),
    /// Store a group.
    InsertGroup(NewGroup),
    /// Make a user a member of a group.
    AddMember { user: i64, group: i64 },
    /// Make a user an owner of a group.
    AddOwner { user: i64, group: i64 },
    /// Make a user no member of a group.
    RemoveMember { user: i64, group: i64 },
    /// Make a user no owner of a group.
    RemoveOwner { user: i64, group: i64 },
    /// The members of a group.
    MembersOf(i64),
    /// The ids of the members of a group.
    MemberIdsOf(i64),
    /// The ids of the owners of a group.
    OwnersOf(i64),
    /// The application with this client id that is not disabled.
    EnabledApp(Seq<char>),
    /// The id of the application with this client id, if its group is one of these, by
    /// identifier or by id.
    AppOfGroups { client_id: Seq<char>, identifiers: Seq<Seq<char>>, ids: Seq<i64> },
    /// All applications, each with the identifier of its group.
    AppListings,
    /// The application with this client id, if there is one.
    MaybeApp(Seq<char>),
    /// Overwrite fields of the application with this id.
    UpdateApp { id: i64, changes: AppChanges },
    /// Store an application.
    InsertApp(NewAppView),
    /// Store an API token.
    InsertApiToken(NewApiToken),
    /// The active API token with this text and its group, if there is one.
    ActiveApiToken(Seq<char>),
    /// The API tokens of a group.
    ApiTokensOf(i64),
    /// The API token with this id, if there is one.
    ApiTokenById(i64),
    /// Make the API token with this id inactive.
    DeactivateApiToken(i64),
    /// The text that is cached under a key.
    CacheText(Seq<char>),
    /// The text that is cached under a key, if there is one.
    CacheMaybeText(Seq<char>),
    /// The number that is cached under a key.
    CacheId(Seq<char>),
    /// Cache a text under a key for some seconds.
    CachePut { key: Seq<char>, value: Seq<char>, seconds: u64 },
    /// Forget what is cached under a key.
    CacheDrop(Seq<char>),
    /// Whether anything is cached under a key.
    CacheHas(Seq<char>),
    /// The value of a variable of the environment.
    Variable(Seq<char>),
    /// Send a message, authorized by a key.
    SendEmail { api_key: Seq<char>, message: EmailView },
    /// A pending registration as text.
    WritePending(PendingRegistration),
    /// The pending registration that a text holds.
    ReadPending(Seq<char>),
    /// The invitation that a text holds.
    ReadInvite(Seq<char>),
}

impl View for Query {
    type V = QueryView;

    open spec fn view(&self) -> QueryView {
        match *self {
            Query::OpenDatabase => QueryView::OpenDatabase,
            Query::OpenCache => QueryView::OpenCache,
            Query::UserByEmail(x) => QueryView::UserByEmail(x@),
            Query::MaybeUserByEmail(x) => QueryView::MaybeUserByEmail(x@),
            Query::SetPasswordByEmail { email, hash } =>
                QueryView::SetPasswordByEmail { email: email@, hash: hash@ },
            Query::SetPasswordById { id, hash } => QueryView::SetPasswordById { id, hash: hash@ },
            Query::UpdateProfile { id, profile } => QueryView::UpdateProfile { id, profile },
            Query::InsertUser(x) => QueryView::InsertUser(x),
            Query::GroupsOfUser(x) => QueryView::GroupsOfUser(x),
            Query::FindGroup(x) => QueryView::FindGroup(x),
            Query::MaybeGroup(x) => QueryView::MaybeGroup(x),
            Query::MaybeGroupId(x) => QueryView::MaybeGroupId(x),
            Query::InsertGroup(x) => QueryView::InsertGroup(x),
            Query::AddMember { user, group } => QueryView::AddMember { user, group },
            Query::AddOwner { user, group } => QueryView::AddOwner { user, group },
            Query::RemoveMember { user, group } => QueryView::RemoveMember { user, group },
            Query::RemoveOwner { user, group } => QueryView::RemoveOwner { user, group },
            Query::MembersOf(x) => QueryView::MembersOf(x),
            Query::MemberIdsOf(x) => QueryView::MemberIdsOf(x),
            Query::OwnersOf(x) => QueryView::OwnersOf(x),
            Query::EnabledApp(x) => QueryView::EnabledApp(x@),
            Query::AppOfGroups { client_id, identifiers, ids } => QueryView::AppOfGroups {
                client_id: client_id@,
                identifiers: texts(identifiers@),
                ids: ids@,
            },
            Query::AppListings => QueryView::AppListings,
            Query::MaybeApp(x) => QueryView::MaybeApp(x@),
            Query::UpdateApp { id, changes } => QueryView::UpdateApp { id, changes },
            Query::InsertApp(x) => QueryView::InsertApp(x@),
            Query::InsertApiToken(x) => QueryView::InsertApiToken(x),
            Query::ActiveApiToken(x) => QueryView::ActiveApiToken(x@),
            Query::ApiTokensOf(x) => QueryView::ApiTokensOf(x),
            Query::ApiTokenById(x) => QueryView::ApiTokenById(x),
            Query::DeactivateApiToken(x) => QueryView::DeactivateApiToken(x),
            Query::CacheText(x) => QueryView::CacheText(x@),
            Query::CacheMaybeText(x) => QueryView::CacheMaybeText(x@),
            Query::CacheId(x) => QueryView::CacheId(x@),
            Query::CachePut { key, value, seconds } =>
                QueryView::CachePut { key: key@, value: value@, seconds },
            Query::CacheDrop(x) => QueryView::CacheDrop(x@),
            Query::CacheHas(x) => QueryView::CacheHas(x@),
            Query::Variable(x) => QueryView::Variable(x@),
            Query::SendEmail { api_key, message } =>
                QueryView::SendEmail { api_key: api_key@, message: message@ },
            Query::WritePending(x) => QueryView::WritePending(x),
            Query::ReadPending(x) => QueryView::ReadPending(x@),
            Query::ReadInvite(x) => QueryView::ReadInvite(x@),
        }
    }
}

/// What the crate does itself on behalf of a handler.
pub enum Task {
    /// Whether a password belongs to a hash.
    Verify { password: String, hash: String },
    /// A hash of a password.
    Hash(String),
    /// A random text of letters and digits.
    Draw(u8),
    /// The time, in microseconds since the Unix epoch.
    Clock,
    /// A token for a user.
    CreateJwt(TokenOrder),
    /// Claims as a token, signed with a secret.
    SignClaims { claims: Claims, secret: String },
    /// Claims of a group as a token, signed with a secret.
    SignApiClaims { api_claims: APIClaims, secret: String },
    /// The claims in a token that was signed with a secret.
    ReadClaims { token: String, secret: String },
    /// The list of texts that a JSON text holds.
    ReadList(String),
    /// A list of texts as JSON.
    WriteList(Vec<String>),
}

/// [`Task`] as texts.
pub enum TaskView {
    /// Whether a password belongs to a hash.
    Verify { password: Seq<char>, hash: Seq<char> },
    /// A hash of a password.
    Hash(Seq<char>),
    /// A random text of letters and digits.
    Draw(u8),
    /// The time, in microseconds since the Unix epoch.
    Clock,
    /// A token for a user.
    CreateJwt(TokenOrderView),
    /// Claims as a token, signed with a secret.
    SignClaims { claims: ClaimsView, secret: Seq<char> },
    /// Claims of a group as a token, signed with a secret.
    SignApiClaims { api_claims: APIClaimsView, secret: Seq<char> },
    /// The claims in a token that was signed with a secret.
    ReadClaims { token: Seq<char>, secret: Seq<char> },
    /// The list of texts that a JSON text holds.
    ReadList(Seq<char>),
    /// A list of texts as JSON.
    WriteList(Seq<Seq<char>>),
}

impl View for Task {
    type V = TaskView;

    open spec fn view(&self) -> TaskView {
        match *self {
            Task::Verify { password, hash } => TaskView::Verify {
                password: password@,
                hash: hash@,
            },
            Task::Hash(x) => TaskView::Hash(x@),
            Task::Draw(x) => TaskView::Draw(x),
            Task::Clock => TaskView::Clock,
            Task::CreateJwt(x) => TaskView::CreateJwt(x@),
            Task::SignClaims { claims, secret } =>
                TaskView::SignClaims { claims: claims@, secret: secret@ },
            Task::SignApiClaims { api_claims, secret } =>
                TaskView::SignApiClaims { api_claims: api_claims@, secret: secret@ },
            Task::ReadClaims { token, secret } =>
                TaskView::ReadClaims { token: token@, secret: secret@ },
            Task::ReadList(x) => TaskView::ReadList(x@),
            Task::WriteList(x) => TaskView::WriteList(texts(x@)),
        }
    }
}

/// What a handler waits for.
pub enum Need {
    Query(Query),
    Task(Task),
}

/// [`Need`] as texts.
pub enum NeedView {
    Query(QueryView),
    Task(TaskView),
}

impl View for Need {
    type V = NeedView;

    open spec fn view(&self) -> NeedView {
        match self {
            Need::Query(q) => NeedView::Query(q@),
            Need::Task(t) => NeedView::Task(t@),
        }
    }
}

/// What comes back: the kind of answer that a [`Query`] or a [`Task`] has, or the
/// debug text of what went wrong.
pub enum Reply {
    Done(Result<(), String>),
    Rows(Result<usize, String>),
    Flag(Result<bool, String>),
    Text(Result<String, String>),
    MaybeText(Result<Option<String>, String>),
    Texts(Result<Vec<String>, String>),
    Id(Result<i64, String>),
    MaybeId(Result<Option<i64>, String>),
    Ids(Result<Vec<i64>, String>),
    User(Result<User, String>),
    MaybeUser(Result<Option<User>, String>),
    Group(Result<Group, String>),
    MaybeGroup(Result<Option<Group>, String>),
    Members(Result<Vec<Member>, String>),
    App(Result<App, String>),
    MaybeApp(Result<Option<App>, String>),
    Listings(Result<Vec<AppListing>, String>),
    ApiToken(Result<Option<ApiToken>, String>),
    ApiTokens(Result<Vec<ApiToken>, String>),
    MaybeApiToken(Result<Option<(ApiToken, Group)>, String>),
    Pending(Result<PendingRegistration, String>),
    Invite(Result<InviteRequest, String>),
    Drawn(String),
    Now(i64),
    Token(Result<String, ApiError>),
    Claims(Result<Claims, String>),
}

/// Whether a reply is of the kind that a query is answered with.
pub open spec fn fits_query(query: QueryView, reply: Reply) -> bool {
    match query {
        QueryView::OpenDatabase
        | QueryView::OpenCache
        | QueryView::CachePut { .. }
        | QueryView::CacheDrop(_)
        | QueryView::SendEmail { .. } => reply is Done,
        QueryView::UserByEmail(_) => reply is User,
        QueryView::MaybeUserByEmail(_) => reply is MaybeUser,
        QueryView::SetPasswordByEmail { .. }
        | QueryView::SetPasswordById { .. }
        | QueryView::UpdateProfile { .. }
        | QueryView::InsertUser(_)
        | QueryView::AddMember { .. }
        | QueryView::AddOwner { .. }
        | QueryView::RemoveMember { .. }
        | QueryView::RemoveOwner { .. }
        | QueryView::UpdateApp { .. }
        | QueryView::InsertApp(_)
        | QueryView::InsertApiToken(_)
        | QueryView::DeactivateApiToken(_) => reply is Rows,
        QueryView::GroupsOfUser(_) => reply is Texts,
        QueryView::FindGroup(_) | QueryView::InsertGroup(_) => reply is Group,
        QueryView::MaybeGroup(_) => reply is MaybeGroup,
        QueryView::MaybeGroupId(_) | QueryView::AppOfGroups { .. } => reply is MaybeId,
        QueryView::MembersOf(_) => reply is Members,
        QueryView::MemberIdsOf(_) | QueryView::OwnersOf(_) => reply is Ids,
        QueryView::EnabledApp(_) => reply is App,
        QueryView::AppListings => reply is Listings,
        QueryView::MaybeApp(_) => reply is MaybeApp,
        QueryView::ActiveApiToken(_) => reply is MaybeApiToken,
        QueryView::ApiTokensOf(_) => reply is ApiTokens,
        QueryView::ApiTokenById(_) => reply is ApiToken,
        QueryView::CacheText(_) | QueryView::Variable(_) | QueryView::WritePending(_) =>
            reply is Text,
        QueryView::CacheMaybeText(_) => reply is MaybeText,
        QueryView::CacheId(_) => reply is Id,
        QueryView::CacheHas(_) => reply is Flag,
        QueryView::ReadPending(_) => reply is Pending,
        QueryView::ReadInvite(_) => reply is Invite,
    }
}

/// Whether a reply is of the kind that a task is answered with.
pub open spec fn fits_task(task: TaskView, reply: Reply) -> bool {
    match task {
        TaskView::Verify { .. } => reply is Flag,
        TaskView::Hash(_)
        | TaskView::SignClaims { .. }
        | TaskView::SignApiClaims { .. }
        | TaskView::WriteList(_) => reply is Text,
        TaskView::Draw(_) => reply is Drawn,
        TaskView::Clock => reply is Now,
        TaskView::CreateJwt(_) => reply is Token,
        TaskView::ReadClaims { .. } => reply is Claims,
        TaskView::ReadList(_) => reply is Texts,
    }
}

/// Whether a reply is of the kind that a handler waits for.
pub open spec fn fits(need: NeedView, reply: Reply) -> bool {
    match need {
        NeedView::Query(q) => fits_query(q, reply),
        NeedView::Task(t) => fits_task(t, reply),
    }
}

/// Whether a reply to a task is one that carrying it out gives.
pub open spec fn answered(task: TaskView, reply: Reply) -> bool {
    match task {
        TaskView::Verify { password, hash } => reply matches Reply::Flag(r) && told(r)
            == bcrypt_verify(password, hash),
        TaskView::Hash(password) => reply matches Reply::Text(r) && (r matches Ok(hash)
            ==> accepts(password, hash@)),
        TaskView::Draw(length) => reply matches Reply::Drawn(text) && token_of(
            length as nat,
            text@,
        ),
        TaskView::Clock => reply matches Reply::Now(now) && shown(now),
        TaskView::CreateJwt(order) => reply matches Reply::Token(r) && exists|now: i64|
            #![trigger shown(now)]
            shown(now) && token_made(order, now, settled_text(r)),
        TaskView::SignClaims { claims, secret } => reply matches Reply::Text(r) && told_text(r)
            == jwt_of_claims(claims, secret) && (r matches Ok(token) ==> claims_of_jwt(
            token@,
            secret,
        ) == Some(claims)),
        TaskView::SignApiClaims { api_claims, secret } => reply matches Reply::Text(r)
            && told_text(r) == jwt_of_api_claims(api_claims, secret) && (r matches Ok(token)
            ==> api_claims_of_jwt(token@, secret) == Some(api_claims)),
        TaskView::ReadClaims { token, secret } => reply matches Reply::Claims(r) && (
        r matches Ok(claims) ==> claims_of_jwt(token, secret) == Some(claims@)),
        TaskView::ReadList(json) => reply matches Reply::Texts(r) && told_texts(r) == list_of_json(
            json,
        ),
        TaskView::WriteList(list) => reply matches Reply::Text(r) && told_text(r) == json_of_list(
            list,
        ) && (r matches Ok(json) ==> reads_as(json@, list)),
    }
}

/// Whether a reply to a task is one that was got by carrying it out: a hash, a random
/// text, the time and the claims of a token, which the task does not settle, are what
/// the outside gave for them.
pub open spec fn performed(task: TaskView, reply: Reply) -> bool {
    answered(task, reply) && match (task, reply) {
        (TaskView::Hash(password), Reply::Text(r)) => hashed(password, r),
        (TaskView::Draw(length), Reply::Drawn(text)) => drawn(length, text@),
        (TaskView::Clock, Reply::Now(now)) => clocked(now),
        (TaskView::CreateJwt(order), Reply::Token(r)) => exists|now: i64|
            #![trigger shown(now)]
            shown(now) && clocked(now) && token_made(order, now, settled_text(r)),
        (TaskView::ReadClaims { token, secret }, Reply::Claims(r)) => decoded(token, secret, r),
        _ => true,
    }
}

/// Whether a reply is one that a handler can get: of the kind that it waits for
/// and, for a task, one that carrying it out gives.
pub open spec fn possible(need: NeedView, reply: Reply) -> bool {
    match need {
        NeedView::Query(q) => fits_query(q, reply),
        NeedView::Task(t) => answered(t, reply),
    }
}

/// Where a handler stands after a reply: it asks on, or it has answered.
pub enum Progress<S, A> {
    Ask(S),
    Done(Result<A, ApiError>),
}

/// [`Progress`], with the answer as texts.
pub enum Outcome<S, A> {
    Ask(S),
    Done(Result<A, Failure>),
}

/// Where a handler stands, with the answer as texts.
pub open spec fn outcome<S, A: View>(progress: Progress<S, A>) -> Outcome<S, A::V> {
    match progress {
        Progress::Ask(s) => Outcome::Ask(s),
        Progress::Done(Ok(a)) => Outcome::Done(Ok(a@)),
        Progress::Done(Err(e)) => Outcome::Done(Err(e@)),
    }
}

/// A request on its way through the service.
pub trait Handler: Sized {
    /// What the request is answered if all goes well.
    type Answer: View;

    /// What the handler waits for.
    spec fn asks(&self) -> NeedView;

    /// Where a reply takes the handler. One that is not of the kind that it
    /// waits for is ignored.
    spec fn next(self, reply: Reply) -> Outcome<Self, <Self::Answer as View>::V>;

    /// A bound on how many replies the handler still needs.
    spec fn rank(&self) -> nat;

    /// In whose name the handler reports failures.
    spec fn speaks_as(name: Seq<char>) -> bool;

    /// A reply of the right kind brings the handler nearer to its end.
    proof fn moves(self, reply: Reply)
        requires
            fits(self.asks(), reply),
        ensures
            self.rank() > 0,
            self.next(reply) matches Outcome::Ask(s) ==> 0 < s.rank() < self.rank(),
    ;

    /// A reply of the wrong kind is ignored.
    proof fn ignores(self, reply: Reply)
        requires
            !fits(self.asks(), reply),
        ensures
            self.next(reply) == Outcome::<Self, <Self::Answer as View>::V>::Ask(self),
    ;

    /// Every failure is reported in the documented shape.
    proof fn reports(self, reply: Reply)
        requires
            possible(self.asks(), reply),
        ensures
            self.next(reply) matches Outcome::Done(Err(f)) ==> exists|name: Seq<char>|
                Self::speaks_as(name) && reported_by(f, name),
    ;

    /// Tells what the handler waits for.
    fn need(&self) -> (r: Need)
        ensures
            r@ == self.asks(),
    ;

    /// Takes a reply.
    fn resume(self, reply: Reply) -> (r: Progress<Self, Self::Answer>)
        ensures
            outcome(r) == self.next(reply),
    ;
}

/// A reply that carrying out a task gives is of the right kind.
pub proof fn answered_fits(task: TaskView, reply: Reply)
    requires
        answered(task, reply),
    ensures
        fits_task(task, reply),
{
}

/// A failure to make a token is reported in the name of [`create_jwt`].
pub proof fn token_failures_are_reported(need: NeedView, reply: Reply)
    requires
        possible(need, reply),
    ensures
        reply matches Reply::Token(Err(e)) ==> (need matches NeedView::Task(TaskView::CreateJwt(_))
            ==> reported_by(e@, "create_jwt"@)),
{
    broadcast use refusal_is_reported, failure_is_reported;

}

/// Carries out a task.
pub fn perform(task: Task) -> (r: Reply)
    ensures
        performed(task@, r),
{
    match task {
        Task::Verify { password, hash } => Reply::Flag(
            verify_password(password.as_str(), hash.as_str()),
        ),
        Task::Hash(password) => Reply::Text(make_hash(password.as_str())),
        Task::Draw(length) => Reply::Drawn(draw_text(length)),
        Task::Clock => Reply::Now(read_clock()),
        Task::CreateJwt(order) => Reply::Token(
            create_jwt(
                order.email.as_str(),
                order.user_id.as_str(),
                order.token_type.as_str(),
                &order.first_name,
                &order.last_name,
                &order.middle_name,
                &order.client_id,
                &order.secret,
            ),
        ),
        Task::SignClaims { claims, secret } => Reply::Text(sign_claims(&claims, secret.as_str())),
        Task::SignApiClaims { api_claims, secret } => Reply::Text(
            sign_api_claims(&api_claims, secret.as_str()),
        ),
        Task::ReadClaims { token, secret } => Reply::Claims(
            decode_claims(token.as_str(), secret.as_str()),
        ),
        Task::ReadList(json) => Reply::Texts(read_list(json.as_str())),
        Task::WriteList(list) => Reply::Text(write_list(&list)),
    }
}

/// Whether one standing leads to another by tasks alone, the replies to which
/// are given.
pub open spec fn settles<H: Handler>(
    from: Outcome<H, <H::Answer as View>::V>,
    replies: Seq<Reply>,
    to: Outcome<H, <H::Answer as View>::V>,
) -> bool
    decreases replies.len(),
{
    if replies.len() == 0 {
        from == to
    } else {
        match from {
            Outcome::Ask(h) => h.asks() matches NeedView::Task(t) && performed(t, replies[0])
                && settles(h.next(replies[0]), replies.drop_first(), to),
            _ => false,
        }
    }
}

/// Carries out tasks as long as the handler waits for one. What is left is a
/// question to a service outside, or the answer.
pub fn settle<H: Handler>(progress: Progress<H, H::Answer>) -> (r: Progress<H, H::Answer>)
    ensures
        exists|replies: Seq<Reply>| #[trigger] settles(outcome(progress), replies, outcome(r)),
        r matches Progress::Ask(h) ==> h.asks() is Query,
    decreases
            (match progress {
                Progress::Ask(h) => h.rank() + 1,
                _ => 0,
            }),
{
    let ghost from = outcome(progress);
    match progress {
        Progress::Ask(h) => match h.need() {
            Need::Query(_) => {
                assert(settles(from, Seq::<Reply>::empty(), from));
                Progress::Ask(h)
            },
            Need::Task(task) => {
                let ghost asked = task@;
                let reply = perform(task);
                let ghost given = reply;
                proof {
                    answered_fits(asked, reply);
                    h.moves(reply);
                }
                let r = settle(h.resume(reply));
                proof {
                    let rest = choose|replies: Seq<Reply>| #[trigger]
                        settles(h.next(given), replies, outcome(r));
                    let all = seq![given] + rest;
                    assert(all.drop_first() =~= rest);
                    assert(settles(from, all, outcome(r)));
                }
                r
            },
        },
        done => {
            assert(settles(from, Seq::<Reply>::empty(), from));
            done
        },
    }
}

/// Hands a handler a reply and carries out the tasks that follow from it.
pub fn advance<H: Handler>(handler: H, reply: Reply) -> (r: Progress<H, H::Answer>)
    ensures
        exists|replies: Seq<Reply>|
            #[trigger] settles(handler.next(reply), replies, outcome(r)),
        r matches Progress::Ask(h) ==> h.asks() is Query,
{
    settle(handler.resume(reply))
}

/// Where a handler stands after some replies.
pub open spec fn run<H: Handler>(
    from: Outcome<H, <H::Answer as View>::V>,
    replies: Seq<Reply>,
) -> Outcome<H, <H::Answer as View>::V>
    decreases replies.len(),
{
    if replies.len() == 0 {
        from
    } else {
        match from {
            Outcome::Ask(h) => run(h.next(replies[0]), replies.drop_first()),
            _ => from,
        }
    }
}

/// Whether every reply is one that the handler can get when it gets it.
pub open spec fn possible_run<H: Handler>(
    from: Outcome<H, <H::Answer as View>::V>,
    replies: Seq<Reply>,
) -> bool
    decreases replies.len(),
{
    replies.len() > 0 ==> match from {
        Outcome::Ask(h) => possible(h.asks(), replies[0]) && possible_run(
            h.next(replies[0]),
            replies.drop_first(),
        ),
        _ => false,
    }
}

/// Every request comes to an end: a handler is never asked for more replies than
/// its rank.
pub proof fn handlers_end<H: Handler>(handler: H, replies: Seq<Reply>)
    requires
        possible_run(Outcome::<H, <H::Answer as View>::V>::Ask(handler), replies),
    ensures
        replies.len() <= handler.rank(),
        0 < replies.len() == handler.rank() ==> !(run(
            Outcome::<H, <H::Answer as View>::V>::Ask(handler),
            replies,
        ) is Ask),
    decreases replies.len(),
{
    reveal_with_fuel(run, 2);
    reveal_with_fuel(possible_run, 2);
    if replies.len() > 0 {
        let next = handler.next(replies[0]);
        match handler.asks() {
            NeedView::Task(t) => answered_fits(t, replies[0]),
            _ => {},
        }
        handler.moves(replies[0]);
        match next {
            Outcome::Ask(h) => handlers_end(h, replies.drop_first()),
            _ => {},
        }
    }
}

/// Every failure that a request is answered is in the documented shape: it names
/// its handler and has one of the documented codes.
pub proof fn failures_are_reported<H: Handler>(handler: H, replies: Seq<Reply>)
    requires
        possible_run(Outcome::<H, <H::Answer as View>::V>::Ask(handler), replies),
    ensures
        run(
            Outcome::<H, <H::Answer as View>::V>::Ask(handler),
            replies,
        ) matches Outcome::Done(Err(f)) ==> exists|name: Seq<char>|
            H::speaks_as(name) && reported_by(f, name),
    decreases replies.len(),
{
    reveal_with_fuel(run, 2);
    if replies.len() > 0 {
        let next = handler.next(replies[0]);
        handler.reports(replies[0]);
        match next {
            Outcome::Ask(h) => failures_are_reported(h, replies.drop_first()),
            _ => {},
        }
    }
}

} // verus!
