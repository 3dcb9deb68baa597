use iam_service::error::ApiError;
use iam_service::models::{
    APIClaims, AcceptInviteRequest, ApiToken, App, AppListing, ChangePasswordRequest, Claims,
    CreateApiTokenRequest, CreateGroupRequest, CreateOrUpdateAppRequest,
    CreateSessionTokenRequest, Email, Group, GroupKey, GroupMemberships, GroupOwnerships,
    ISCClaims, InviteRequest, LoginRequest, LogoutRequest, Member, PendingRegistration,
    RefreshTokenRequest, RegisterRequest, RequestPasswordRequest, ResetPasswordRequest,
    UpdateProfileRequest, User,
};
use iam_service::protocol::{advance, settle, Handler, Need, Progress, Query, Reply};
use iam_service::routes::account::{
    accept_invite, change_password, register, registeration_confirmation, request_password_reset,
    reset_password, update_profile,
};
use iam_service::routes::api_tokens::{
    create_api_session_token, create_api_session_token_interactive, create_api_token,
    deactivate_api_token, get_api_tokens_by_group,
};
use iam_service::routes::apps::{create_or_update_app, get_accessible_apps, get_app_by_client_id};
use iam_service::routes::groups::{
    create_group, get_group_members_ids, get_group_members_ids_api_land,
    get_group_members_ids_user_land, get_group_memberships, get_group_ownserships, get_members,
    is_member, manage_membership,
};
use iam_service::routes::sessions::{
    clear_redis, generate_app_tokens, login, logout, refresh_token, validate_api_token,
    validate_token,
};
use std::collections::HashMap;

const SECRET: &str = "a secret for tests";

/// Services that hold everything in memory. Those that are named in `broken` fail.
struct Services {
    users: Vec<User>,
    groups: Vec<Group>,
    members: Vec<(i64, i64)>,
    owners: Vec<(i64, i64)>,
    apps: Vec<App>,
    tokens: Vec<ApiToken>,
    cache: HashMap<String, String>,
    lives: HashMap<String, u64>,
    environment: HashMap<String, String>,
    sent: Vec<Email>,
    broken: Vec<&'static str>,
}

fn services() -> Services {
    let mut environment = HashMap::new();
    environment.insert("JWT_SECRET".to_string(), SECRET.to_string());
    environment.insert("ISC_SECRET".to_string(), "isc".to_string());
    Services {
        users: vec![],
        groups: vec![],
        members: vec![],
        owners: vec![],
        apps: vec![],
        tokens: vec![],
        cache: HashMap::new(),
        lives: HashMap::new(),
        environment,
        sent: vec![],
        broken: vec![],
    }
}

fn some(text: &str) -> Option<String> {
    Some(text.to_string())
}

fn copy_user(u: &User) -> User {
    User {
        id: u.id,
        first_name: u.first_name.clone(),
        last_name: u.last_name.clone(),
        middle_name: u.middle_name.clone(),
        email_id: u.email_id.clone(),
        mobile_number: u.mobile_number.clone(),
        password_hash: u.password_hash.clone(),
        is_root: u.is_root,
        is_active: u.is_active,
    }
}

fn copy_group(g: &Group) -> Group {
    Group {
        id: g.id,
        identifier: g.identifier.clone(),
        disabled: g.disabled,
        short_text: g.short_text.clone(),
    }
}

fn copy_app(a: &App) -> App {
    App {
        id: a.id,
        client_id: a.client_id.clone(),
        name: a.name.clone(),
        logo_url: a.logo_url.clone(),
        disabled: a.disabled,
        app_url_dev: a.app_url_dev.clone(),
        app_url_stage: a.app_url_stage.clone(),
        app_url_prod: a.app_url_prod.clone(),
        group_id: a.group_id,
        tnc_link: a.tnc_link.clone(),
        allow_registration: a.allow_registration,
        description: a.description.clone(),
        auth_redirection_path: a.auth_redirection_path.clone(),
        web_interface: a.web_interface,
    }
}

fn copy_token(t: &ApiToken) -> ApiToken {
    ApiToken {
        id: t.id,
        parent_id: t.parent_id,
        expiry_date: t.expiry_date,
        created_at: t.created_at,
        is_active: t.is_active,
        name: t.name.clone(),
        token_str: t.token_str.clone(),
    }
}

fn missing<T>(found: Option<T>) -> Result<T, String> {
    found.ok_or("NotFound".to_string())
}

impl Services {
    fn group(&self, key: &GroupKey) -> Option<Group> {
        self.groups
            .iter()
            .find(|g| match key {
                GroupKey::Id(id) => g.id == *id,
                GroupKey::Identifier(identifier) => g.identifier == *identifier,
            })
            .map(copy_group)
    }

    fn user(&self, email: &str) -> Option<User> {
        self.users.iter().find(|u| u.email_id == email).map(copy_user)
    }

    fn rows<T>(&self, what: &'static str, rows: T) -> Result<T, String> {
        if self.broken.contains(&what) {
            Err(format!("{} is broken", what))
        } else {
            Ok(rows)
        }
    }

    fn answer(&mut self, query: Query) -> Reply {
        match query {
            Query::OpenDatabase => Reply::Done(self.rows("OpenDatabase", ())),
            Query::OpenCache => Reply::Done(self.rows("OpenCache", ())),
            Query::UserByEmail(email) => Reply::User(missing(self.user(&email))),
            Query::MaybeUserByEmail(email) => {
                Reply::MaybeUser(self.rows("MaybeUserByEmail", self.user(&email)))
            }
            Query::SetPasswordByEmail { email, hash } => {
                let mut rows = 0;
                if self.broken.contains(&"SetPassword") {
                    return Reply::Rows(Err("SetPassword is broken".to_string()));
                }
                for u in self.users.iter_mut().filter(|u| u.email_id == email) {
                    u.password_hash = Some(hash.clone());
                    rows += 1;
                }
                Reply::Rows(Ok(rows))
            }
            Query::SetPasswordById { id, hash } => {
                let mut rows = 0;
                for u in self.users.iter_mut().filter(|u| u.id == id) {
                    u.password_hash = Some(hash.clone());
                    rows += 1;
                }
                Reply::Rows(Ok(rows))
            }
            Query::UpdateProfile { id, profile } => {
                let mut rows = 0;
                for u in self.users.iter_mut().filter(|u| u.id == id) {
                    u.first_name = profile.first_name.clone();
                    u.middle_name = profile.middle_name.clone();
                    u.last_name = profile.last_name.clone();
                    u.mobile_number = profile.mobile_number.clone();
                    rows += 1;
                }
                Reply::Rows(Ok(rows))
            }
            Query::InsertUser(u) => {
                if self.broken.contains(&"InsertUser") {
                    return Reply::Rows(Err("InsertUser is broken".to_string()));
                }
                let id = self.users.len() as i64 + 1;
                assert!(u.created_at <= u.updated_at);
                self.users.push(User {
                    id,
                    first_name: u.first_name,
                    last_name: u.last_name,
                    middle_name: u.middle_name,
                    email_id: u.email_id,
                    mobile_number: u.mobile_number,
                    password_hash: u.password_hash,
                    is_root: u.is_root,
                    is_active: u.is_active,
                });
                Reply::Rows(Ok(1))
            }
            Query::GroupsOfUser(user) => {
                let groups = self
                    .groups
                    .iter()
                    .filter(|g| self.members.contains(&(user, g.id)))
                    .map(|g| g.identifier.clone())
                    .collect();
                Reply::Texts(self.rows("GroupsOfUser", groups))
            }
            Query::FindGroup(key) => Reply::Group(missing(self.group(&key))),
            Query::MaybeGroup(key) => Reply::MaybeGroup(self.rows("MaybeGroup", self.group(&key))),
            Query::MaybeGroupId(key) => {
                Reply::MaybeId(self.rows("MaybeGroupId", self.group(&key).map(|g| g.id)))
            }
            Query::InsertGroup(g) => {
                let group = Group {
                    id: self.groups.len() as i64 + 100,
                    identifier: g.identifier,
                    disabled: g.disabled,
                    short_text: g.short_text,
                };
                self.groups.push(copy_group(&group));
                Reply::Group(Ok(group))
            }
            Query::AddMember { user, group } => {
                let r = self.rows("AddMember", 1);
                if r.is_ok() && !self.members.contains(&(user, group)) {
                    self.members.push((user, group));
                }
                Reply::Rows(r)
            }
            Query::AddOwner { user, group } => {
                let r = self.rows("AddOwner", 1);
                if r.is_ok() && !self.owners.contains(&(user, group)) {
                    self.owners.push((user, group));
                }
                Reply::Rows(r)
            }
            Query::RemoveMember { user, group } => {
                let r = self.rows("RemoveMember", 1);
                if r.is_ok() {
                    self.members.retain(|m| *m != (user, group));
                }
                Reply::Rows(r)
            }
            Query::RemoveOwner { user, group } => {
                let r = self.rows("RemoveOwner", 1);
                if r.is_ok() {
                    self.owners.retain(|m| *m != (user, group));
                }
                Reply::Rows(r)
            }
            Query::MembersOf(group) => {
                let members = self
                    .users
                    .iter()
                    .filter(|u| self.members.contains(&(u.id, group)))
                    .map(|u| Member {
                        first_name: u.first_name.clone(),
                        last_name: u.last_name.clone(),
                        middle_name: u.middle_name.clone(),
                        email_id: u.email_id.clone(),
                        id: u.id,
                    })
                    .collect();
                Reply::Members(self.rows("MembersOf", members))
            }
            Query::MemberIdsOf(group) => {
                let ids = self.members.iter().filter(|m| m.1 == group).map(|m| m.0).collect();
                Reply::Ids(self.rows("MemberIdsOf", ids))
            }
            Query::OwnersOf(group) => {
                let ids = self.owners.iter().filter(|m| m.1 == group).map(|m| m.0).collect();
                Reply::Ids(self.rows("OwnersOf", ids))
            }
            Query::EnabledApp(client_id) => Reply::App(missing(
                self.apps.iter().find(|a| a.client_id == client_id && !a.disabled).map(copy_app),
            )),
            Query::AppOfGroups { client_id, identifiers, ids } => {
                let id = self
                    .apps
                    .iter()
                    .find(|a| {
                        a.client_id == client_id
                            && self.groups.iter().any(|g| {
                                a.group_id == Some(g.id)
                                    && (identifiers.contains(&g.identifier) || ids.contains(&g.id))
                            })
                    })
                    .map(|a| a.id);
                Reply::MaybeId(self.rows("AppOfGroups", id))
            }
            Query::AppListings => {
                let listings = self
                    .apps
                    .iter()
                    .map(|a| AppListing {
                        name: a.name.clone(),
                        logo_url: a.logo_url.clone(),
                        allow_registration: a.allow_registration,
                        tnc_link: a.tnc_link.clone(),
                        app_url_dev: a.app_url_dev.clone(),
                        app_url_stage: a.app_url_stage.clone(),
                        app_url_prod: a.app_url_prod.clone(),
                        description: a.description.clone(),
                        auth_redirection_path: a.auth_redirection_path.clone(),
                        web_interface: a.web_interface,
                        group_identifier: a
                            .group_id
                            .and_then(|id| self.group(&GroupKey::Id(id)))
                            .map(|g| g.identifier),
                    })
                    .collect();
                Reply::Listings(self.rows("AppListings", listings))
            }
            Query::MaybeApp(client_id) => {
                let app = self.apps.iter().find(|a| a.client_id == client_id).map(copy_app);
                Reply::MaybeApp(self.rows("MaybeApp", app))
            }
            Query::UpdateApp { id, changes } => {
                let r = self.rows("UpdateApp", 1);
                for a in self.apps.iter_mut().filter(|a| a.id == id && r.is_ok()) {
                    if let Some(name) = &changes.name {
                        a.name = name.clone();
                    }
                    if changes.logo_url.is_some() {
                        a.logo_url = changes.logo_url.clone();
                    }
                    if let Some(disabled) = changes.disabled {
                        a.disabled = disabled;
                    }
                    if changes.app_url_dev.is_some() {
                        a.app_url_dev = changes.app_url_dev.clone();
                    }
                    if changes.app_url_stage.is_some() {
                        a.app_url_stage = changes.app_url_stage.clone();
                    }
                    if changes.app_url_prod.is_some() {
                        a.app_url_prod = changes.app_url_prod.clone();
                    }
                    if changes.tnc_link.is_some() {
                        a.tnc_link = changes.tnc_link.clone();
                    }
                    if let Some(allow) = changes.allow_registration {
                        a.allow_registration = allow;
                    }
                    if changes.auth_redirection_path.is_some() {
                        a.auth_redirection_path = changes.auth_redirection_path.clone();
                    }
                    if let Some(web) = changes.web_interface {
                        a.web_interface = web;
                    }
                    if changes.group_id.is_some() {
                        a.group_id = changes.group_id;
                    }
                    if changes.description.is_some() {
                        a.description = changes.description.clone();
                    }
                }
                Reply::Rows(r)
            }
            Query::InsertApp(a) => {
                let r = self.rows("InsertApp", 1);
                if r.is_ok() {
                    self.apps.push(App {
                        id: self.apps.len() as i64 + 500,
                        client_id: a.client_id,
                        name: a.name,
                        logo_url: a.logo_url,
                        disabled: a.disabled,
                        app_url_dev: a.app_url_dev,
                        app_url_stage: a.app_url_stage,
                        app_url_prod: a.app_url_prod,
                        group_id: a.group_id,
                        tnc_link: a.tnc_link,
                        allow_registration: a.allow_registration,
                        description: a.description,
                        auth_redirection_path: a.auth_redirection_path,
                        web_interface: a.web_interface,
                    });
                }
                Reply::Rows(r)
            }
            Query::InsertApiToken(t) => {
                let r = self.rows("InsertApiToken", 1);
                if r.is_ok() {
                    self.tokens.push(ApiToken {
                        id: self.tokens.len() as i64 + 900,
                        parent_id: t.parent_id,
                        expiry_date: t.expiry_date,
                        created_at: t.created_at,
                        is_active: t.is_active,
                        name: t.name,
                        token_str: t.token_str,
                    });
                }
                Reply::Rows(r)
            }
            Query::ActiveApiToken(text) => {
                let found = self
                    .tokens
                    .iter()
                    .find(|t| t.token_str.as_ref() == Some(&text) && t.is_active)
                    .and_then(|t| {
                        self.group(&GroupKey::Id(t.parent_id)).map(|g| (copy_token(t), g))
                    });
                Reply::MaybeApiToken(self.rows("ActiveApiToken", found))
            }
            Query::ApiTokensOf(group) => {
                let tokens =
                    self.tokens.iter().filter(|t| t.parent_id == group).map(copy_token).collect();
                Reply::ApiTokens(self.rows("ApiTokensOf", tokens))
            }
            Query::ApiTokenById(id) => {
                let token = self.tokens.iter().find(|t| t.id == id).map(copy_token);
                Reply::ApiToken(self.rows("ApiTokenById", token))
            }
            Query::DeactivateApiToken(id) => {
                let r = self.rows("DeactivateApiToken", 1);
                for t in self.tokens.iter_mut().filter(|t| t.id == id && r.is_ok()) {
                    t.is_active = false;
                }
                Reply::Rows(r)
            }
            Query::CacheText(key) => Reply::Text(missing(self.cache.get(&key).cloned())),
            Query::CacheMaybeText(key) => {
                Reply::MaybeText(self.rows("CacheMaybeText", self.cache.get(&key).cloned()))
            }
            Query::CacheId(key) => {
                Reply::Id(missing(self.cache.get(&key).and_then(|v| v.parse().ok())))
            }
            Query::CachePut { key, value, seconds } => {
                let r = self.rows("CachePut", ());
                if r.is_ok() {
                    self.lives.insert(key.clone(), seconds);
                    self.cache.insert(key, value);
                }
                Reply::Done(r)
            }
            Query::CacheDrop(key) => {
                let r = self.rows("CacheDrop", ());
                if r.is_ok() {
                    self.cache.remove(&key);
                }
                Reply::Done(r)
            }
            Query::CacheHas(key) => {
                Reply::Flag(self.rows("CacheHas", self.cache.contains_key(&key)))
            }
            Query::Variable(name) => Reply::Text(
                self.environment.get(&name).cloned().ok_or("NotPresent".to_string()),
            ),
            Query::SendEmail { api_key, message } => {
                assert_eq!(api_key, "isc");
                let r = self.rows("SendEmail", ());
                if r.is_ok() {
                    self.sent.push(message);
                }
                Reply::Done(r)
            }
            Query::WritePending(p) => Reply::Text(
                self.rows("WritePending", format!("{}\n{}", p.email, p.hashed_password)),
            ),
            Query::ReadPending(text) => Reply::Pending(match text.split_once('\n') {
                Some((email, hash)) => Ok(PendingRegistration {
                    email: email.to_string(),
                    hashed_password: hash.to_string(),
                }),
                None => Err("no registration".to_string()),
            }),
            Query::ReadInvite(text) => Reply::Invite(match text.split_once('\n') {
                Some((email, name)) => Ok(InviteRequest {
                    email: email.to_string(),
                    first_name: name.to_string(),
                    last_name: "Guest".to_string(),
                    middle_name: None,
                    is_root: true,
                }),
                None => Err("no invitation".to_string()),
            }),
        }
    }

    fn serve<H: Handler>(&mut self, handler: H) -> Result<H::Answer, ApiError> {
        let mut progress = settle(Progress::Ask(handler));
        loop {
            match progress {
                Progress::Ask(h) => {
                    let reply = match h.need() {
                        Need::Query(query) => self.answer(query),
                        Need::Task(_) => panic!("a task was left"),
                    };
                    progress = advance(h, reply);
                }
                Progress::Done(r) => return r,
            }
        }
    }
}

fn refused<A>(r: Result<A, ApiError>, code: u16, message: &str) {
    match r {
        Ok(_) => panic!("not refused"),
        Err(e) => {
            assert_eq!(e.message, message);
            assert_eq!(e.status_code, code);
            assert!(e.error);
        }
    }
}

fn quick_hash(password: &str) -> String {
    bcrypt::hash(password, 4).unwrap()
}

fn person(id: i64, email: &str, password: &str) -> User {
    User {
        id,
        first_name: some("Ada"),
        last_name: None,
        middle_name: None,
        email_id: email.to_string(),
        mobile_number: None,
        password_hash: Some(quick_hash(password)),
        is_root: false,
        is_active: true,
    }
}

fn group(id: i64, identifier: &str) -> Group {
    Group { id, identifier: identifier.to_string(), disabled: false, short_text: None }
}

fn app(id: i64, client_id: &str, group_id: Option<i64>) -> App {
    App {
        id,
        client_id: client_id.to_string(),
        name: format!("App {}", id),
        logo_url: None,
        disabled: false,
        app_url_dev: some("http://dev"),
        app_url_stage: None,
        app_url_prod: None,
        group_id,
        tnc_link: None,
        allow_registration: true,
        description: None,
        auth_redirection_path: some("/auth"),
        web_interface: false,
    }
}

fn claims(user_id: &str) -> Claims {
    Claims {
        sub: "ada@example.org".to_string(),
        exp: 1,
        user_id: user_id.to_string(),
        token_type: "access".to_string(),
        first_name: some("Ada"),
        last_name: None,
        middle_name: None,
        client_id: None,
    }
}

fn api_claims() -> APIClaims {
    APIClaims { sub: "staff".to_string(), exp: 5, group_id: 100, scopes: vec!["read".to_string()] }
}

fn login_request(email: &str, password: &str, client_id: Option<String>) -> LoginRequest {
    LoginRequest { email: email.to_string(), password: password.to_string(), client_id }
}

fn read_claims(token: &str) -> ginger_shared_rs::rocket_utils::Claims {
    jsonwebtoken::decode::<ginger_shared_rs::rocket_utils::Claims>(
        token,
        &jsonwebtoken::DecodingKey::from_secret(SECRET.as_bytes()),
        &jsonwebtoken::Validation::new(jsonwebtoken::Algorithm::HS256),
    )
    .unwrap()
    .claims
}

fn read_api_claims(token: &str) -> ginger_shared_rs::rocket_utils::APIClaims {
    jsonwebtoken::decode::<ginger_shared_rs::rocket_utils::APIClaims>(
        token,
        &jsonwebtoken::DecodingKey::from_secret(SECRET.as_bytes()),
        &jsonwebtoken::Validation::new(jsonwebtoken::Algorithm::HS256),
    )
    .unwrap()
    .claims
}

#[test]
fn who_registers_and_confirms_can_sign_in() {
    let mut s = services();
    let answer = s
        .serve(register(RegisterRequest {
            email: "ada@example.org".to_string(),
            password: "hunter2".to_string(),
            app_id: "shop".to_string(),
        }))
        .unwrap();
    assert_eq!(answer, "User registration request generated successfully");
    assert!(s.users.is_empty());
    assert_eq!(s.sent[0].to, "ada@example.org");
    assert_eq!(s.sent[0].subject, "Confirm Registration");
    let link = "Use this link (expires within 5 minutes) to confirm your registration: https://iam-staging.gingersociety.org/#/shop/registration-confirmation/";
    let token = s.sent[0].message.strip_prefix(link).unwrap().to_string();
    assert_eq!(token.len(), 30);
    assert_eq!(s.lives[&token], 300);

    let answer = s.serve(registeration_confirmation(token.clone())).unwrap();
    assert_eq!(answer, "User registered successfully");
    assert_eq!(s.users.len(), 1);
    assert_eq!(s.users[0].email_id, "ada@example.org");
    assert_eq!(s.users[0].first_name, None);
    assert!(s.users[0].is_active && !s.users[0].is_root);

    refused(
        s.serve(registeration_confirmation(token.clone())),
        404,
        &format!(
            "registeration_confirmation: registration token '{}' not found or expired: NotFound",
            token
        ),
    );

    let tokens = s.serve(login(login_request("ada@example.org", "hunter2", None))).unwrap();
    assert_eq!(tokens.app_tokens, None);
    assert_eq!(read_claims(&tokens.iam_tokens.access_token).token_type, "access");
}

#[test]
fn a_taken_address_is_refused() {
    let mut s = services();
    s.users.push(person(1, "ada@example.org", "x"));
    refused(
        s.serve(register(RegisterRequest {
            email: "ada@example.org".to_string(),
            password: "hunter2".to_string(),
            app_id: "shop".to_string(),
        })),
        409,
        "register: a user with email 'ada@example.org' already exists",
    );
    assert!(s.cache.is_empty() && s.sent.is_empty());
}

#[test]
fn a_registration_reports_what_failed() {
    for (what, code, message) in [
        ("OpenDatabase", 503, "register: failed to get DB connection: OpenDatabase is broken"),
        ("OpenCache", 503, "register: failed to get Redis connection: OpenCache is broken"),
        ("MaybeUserByEmail", 500, "register: checking for existing user with email 'a@b': MaybeUserByEmail is broken"),
        ("WritePending", 500, "register: serializing pending registration payload: WritePending is broken"),
        ("CachePut", 500, "register: caching pending registration token: CachePut is broken"),
        ("SendEmail", 503, "register: sending confirmation email to 'a@b': SendEmail is broken"),
    ] {
        let mut s = services();
        s.broken.push(what);
        let r = s.serve(register(RegisterRequest {
            email: "a@b".to_string(),
            password: "p".to_string(),
            app_id: "x".to_string(),
        }));
        refused(r, code, message);
    }
    let mut s = services();
    s.environment.remove("ISC_SECRET");
    let r = s.serve(register(RegisterRequest {
        email: "a@b".to_string(),
        password: "p".to_string(),
        app_id: "x".to_string(),
    }));
    refused(r, 500, "register: reading ISC_SECRET env var: NotPresent");
}

#[test]
fn a_confirmation_goes_on_if_the_token_cannot_be_forgotten() {
    let mut s = services();
    s.cache.insert("tok".to_string(), "ada@example.org\nhash".to_string());
    s.broken.push("CacheDrop");
    s.serve(registeration_confirmation("tok".to_string())).unwrap();
    assert_eq!(s.users[0].password_hash, some("hash"));
    assert!(s.cache.contains_key("tok"));
    s.cache.insert("odd".to_string(), "odd".to_string());
    refused(
        s.serve(registeration_confirmation("odd".to_string())),
        500,
        "registeration_confirmation: deserializing cached registration payload: no registration",
    );
    s.broken.push("InsertUser");
    refused(
        s.serve(registeration_confirmation("tok".to_string())),
        500,
        "registeration_confirmation: inserting new user 'ada@example.org': InsertUser is broken",
    );
}

#[test]
fn a_changed_password_is_taken() {
    let mut s = services();
    s.users.push(person(1, "ada@example.org", "old"));
    s.users.push(person(2, "bob@example.org", "bob"));
    let bob = s.users[1].password_hash.clone();
    let change = |current: &str| {
        change_password(ChangePasswordRequest {
            email: "ada@example.org".to_string(),
            current_password: current.to_string(),
            new_password: "new".to_string(),
        })
    };
    refused(
        s.serve(change("wrong")),
        401,
        "change_password: current password incorrect for user 'ada@example.org'",
    );
    let answer = s.serve(change("old")).unwrap();
    assert_eq!(answer.message, "Password updated successfully");
    assert!(bcrypt::verify("new", s.users[0].password_hash.as_ref().unwrap()).unwrap());
    assert_eq!(s.users[1].password_hash, bob);
    s.serve(login(login_request("ada@example.org", "new", None))).unwrap();
    refused(
        s.serve(login(login_request("ada@example.org", "old", None))),
        401,
        "login: invalid password for user 'ada@example.org'",
    );
}

#[test]
fn a_change_of_password_reports_what_failed() {
    let change = || {
        change_password(ChangePasswordRequest {
            email: "ada@example.org".to_string(),
            current_password: "old".to_string(),
            new_password: "new".to_string(),
        })
    };
    let mut s = services();
    refused(
        s.serve(change()),
        404,
        "change_password: user with email 'ada@example.org' not found: NotFound",
    );
    let mut user = person(1, "ada@example.org", "old");
    user.password_hash = None;
    s.users.push(user);
    refused(
        s.serve(change()),
        500,
        "change_password: user 'ada@example.org' has no password hash set: \"password_hash column was NULL\"",
    );
    s.users[0].password_hash = some("plain");
    let message = "change_password: bcrypt verify for user 'ada@example.org': InvalidHash(\"plain\")";
    refused(s.serve(change()), 500, message);
    s.users[0].password_hash = Some(quick_hash("old"));
    s.broken.push("SetPassword");
    refused(
        s.serve(change()),
        500,
        "change_password: updating password for user 'ada@example.org': SetPassword is broken",
    );
    let mut h = change();
    for reply in [
        Reply::Done(Ok(())),
        Reply::User(Ok(person(1, "ada@example.org", "old"))),
        Reply::Flag(Ok(true)),
        Reply::Text(Ok("hash".to_string())),
    ] {
        h = match h.resume(reply) {
            Progress::Ask(next) => next,
            _ => panic!("ended early"),
        };
    }
    match h.resume(Reply::Rows(Ok(0))) {
        Progress::Done(r) => refused(
            r,
            500,
            "change_password: update touched 0 rows for user 'ada@example.org': \"expected 1 row to be updated\"",
        ),
        _ => panic!("not ended"),
    }
}

#[test]
fn a_reply_of_the_wrong_kind_is_ignored() {
    let h = login(login_request("a@b", "p", None));
    match h.resume(Reply::Flag(Ok(true))) {
        Progress::Ask(h) => assert!(matches!(h.need(), Need::Query(Query::OpenDatabase))),
        _ => panic!("moved on"),
    }
}

#[test]
fn a_login_answers_only_who_knows_the_password() {
    let mut s = services();
    refused(
        s.serve(login(login_request("ada@example.org", "p", None))),
        401,
        "login: user not found for email 'ada@example.org': NotFound",
    );
    let mut user = person(7, "ada@example.org", "p");
    user.password_hash = None;
    s.users.push(user);
    refused(
        s.serve(login(login_request("ada@example.org", "p", None))),
        401,
        "login: user 'ada@example.org' has no password hash set",
    );
    s.users[0].password_hash = some("plain");
    refused(
        s.serve(login(login_request("ada@example.org", "p", None))),
        401,
        "login: bcrypt verify error for user 'ada@example.org': InvalidHash(\"plain\")",
    );
    s.users[0].password_hash = Some(quick_hash("p"));
    let tokens = s.serve(login(login_request("ada@example.org", "p", None))).unwrap();
    let access = read_claims(&tokens.iam_tokens.access_token);
    assert_eq!(access.sub, "ada@example.org");
    assert_eq!(access.user_id, "7");
    assert_eq!(access.first_name, some("Ada"));
    assert_eq!(access.client_id, None);
    let refresh = &tokens.iam_tokens.refresh_token;
    assert_eq!(read_claims(refresh).token_type, "refresh");
    assert_eq!(s.cache[refresh], "{\"user_id\":7}");
    assert_eq!(s.lives[refresh], 3600);
}

#[test]
fn a_login_reads_the_groups_that_it_cached() {
    let mut s = services();
    s.users.push(person(7, "ada@example.org", "p"));
    s.groups.push(group(100, "staff"));
    s.members.push((7, 100));
    s.apps.push(app(500, "shop", Some(100)));
    let tokens =
        s.serve(login(login_request("ada@example.org", "p", some("shop")))).unwrap();
    let pair = tokens.app_tokens.unwrap();
    assert_eq!(read_claims(&pair.access_token).client_id, some("shop"));
    assert_eq!(read_claims(&pair.refresh_token).client_id, some("shop"));
    assert_eq!(s.cache[&pair.refresh_token], "{\"app_id\":\"shop\",\"user_id\":7}");
    assert_eq!(s.cache["user_groups:7"], "[\"staff\"]");
    assert_eq!(s.lives["user_groups:7"], 3600);

    s.members.clear();
    s.serve(login(login_request("ada@example.org", "p", some("shop")))).unwrap();
    s.serve(clear_redis(claims("7"))).unwrap();
    refused(
        s.serve(login(login_request("ada@example.org", "p", some("shop")))),
        403,
        "login: user 'ada@example.org' does not have access to app 'shop' (groups: [])",
    );
}

#[test]
fn a_login_without_a_cache_takes_the_user_for_a_member_of_no_group() {
    let mut s = services();
    s.users.push(person(7, "ada@example.org", "p"));
    s.groups.push(group(100, "staff"));
    s.members.push((7, 100));
    s.apps.push(app(500, "shop", Some(100)));
    s.broken.push("CacheMaybeText");
    refused(
        s.serve(login(login_request("ada@example.org", "p", some("shop")))),
        403,
        "login: user 'ada@example.org' does not have access to app 'shop' (groups: [])",
    );
    s.broken.clear();
    s.cache.insert("user_groups:7".to_string(), "no list".to_string());
    refused(
        s.serve(login(login_request("ada@example.org", "p", some("shop")))),
        403,
        "login: user 'ada@example.org' does not have access to app 'shop' (groups: [])",
    );
    s.cache.insert("user_groups:7".to_string(), "[\"a\",\"100\"]".to_string());
    s.serve(login(login_request("ada@example.org", "p", some("shop")))).unwrap();
}

#[test]
fn a_login_reports_what_failed() {
    for (what, client_id, code, message) in [
        ("OpenCache", None, 503, "login: failed to get Redis connection: OpenCache is broken"),
        ("GroupsOfUser", None, 500, "login: loading groups from DB for user 7: GroupsOfUser is broken"),
        ("CachePut", None, 500, "login: caching base IAM session for user 'ada@example.org': CachePut is broken"),
        ("CachePut", some("shop"), 500, "login: caching app session for app 'shop': CachePut is broken"),
        ("AppOfGroups", some("shop"), 500, "login: checking app access for user 'ada@example.org' / app 'shop': AppOfGroups is broken"),
    ] {
        let mut s = services();
        s.users.push(person(7, "ada@example.org", "p"));
        s.groups.push(group(100, "staff"));
        s.members.push((7, 100));
        s.apps.push(app(500, "shop", Some(100)));
        s.broken.push(what);
        refused(s.serve(login(login_request("ada@example.org", "p", client_id))), code, message);
    }
    let mut s = services();
    s.users.push(person(7, "ada@example.org", "p"));
    s.environment.remove("JWT_SECRET");
    refused(
        s.serve(login(login_request("ada@example.org", "p", None))),
        500,
        "create_jwt: reading JWT_SECRET env var: NotPresent",
    );
}

#[test]
fn an_app_is_open_to_its_group_and_to_everybody_if_it_has_none() {
    let mut s = services();
    s.users.push(person(7, "ada@example.org", "p"));
    s.apps.push(app(500, "open", None));
    s.apps.push(app(501, "closed", None));
    s.apps[1].disabled = true;
    assert!(s.serve(login(login_request("ada@example.org", "p", some("open")))).is_ok());
    for client_id in ["closed", "unknown"] {
        refused(
            s.serve(login(login_request("ada@example.org", "p", some(client_id)))),
            403,
            &format!(
                "login: user 'ada@example.org' does not have access to app '{}' (groups: [])",
                client_id
            ),
        );
    }
}

#[test]
fn who_logs_out_cannot_refresh() {
    let mut s = services();
    s.users.push(person(7, "ada@example.org", "p"));
    let tokens = s.serve(login(login_request("ada@example.org", "p", None))).unwrap().iam_tokens;
    let refresh = |token: &str| {
        refresh_token(RefreshTokenRequest { refresh_token: token.to_string() })
    };
    let access = s.serve(refresh(&tokens.refresh_token)).unwrap().access_token;
    let fresh = read_claims(&access);
    assert_eq!(fresh.token_type, "access");
    assert_eq!(fresh.user_id, "7");
    assert_eq!(fresh.sub, "ada@example.org");
    refused(
        s.serve(refresh(&tokens.access_token)),
        401,
        "refresh_token: expected token_type 'refresh', got 'access'",
    );
    let request = LogoutRequest { refresh_token: tokens.refresh_token.clone() };
    assert_eq!(s.serve(logout(request, claims("7"))).unwrap().message, "Logged out successfully");
    refused(
        s.serve(refresh(&tokens.refresh_token)),
        401,
        "refresh_token: refresh token not found in Redis (expired or revoked)",
    );
    let request = LogoutRequest { refresh_token: tokens.refresh_token.clone() };
    assert_eq!(s.serve(logout(request, claims("7"))).unwrap().message, "Logged out successfully");
}

#[test]
fn a_refresh_and_a_logout_report_what_failed() {
    let refresh = || refresh_token(RefreshTokenRequest { refresh_token: "junk".to_string() });
    let mut s = services();
    refused(
        s.serve(refresh()),
        401,
        "refresh_token: decoding refresh token: Error(InvalidToken)",
    );
    s.environment.clear();
    refused(s.serve(refresh()), 500, "refresh_token: reading JWT_SECRET env var: NotPresent");
    s.broken.push("CacheHas");
    refused(
        s.serve(logout(LogoutRequest { refresh_token: "t".to_string() }, claims("7"))),
        500,
        "logout: checking refresh token existence in Redis: CacheHas is broken",
    );
    s.broken = vec!["CacheDrop"];
    s.cache.insert("t".to_string(), "x".to_string());
    refused(
        s.serve(logout(LogoutRequest { refresh_token: "t".to_string() }, claims("7"))),
        500,
        "logout: deleting refresh token from Redis: CacheDrop is broken",
    );
}

#[test]
fn clearing_forgets_the_lists_of_one_user() {
    let mut s = services();
    for key in ["user_groups:7", "groups_owned:7", "user_groups:8", "other"] {
        s.cache.insert(key.to_string(), "[]".to_string());
    }
    assert_eq!(s.serve(clear_redis(claims("7"))).unwrap(), "Successfully cleared Redis cache.");
    let mut left: Vec<&String> = s.cache.keys().collect();
    left.sort();
    assert_eq!(left, ["other", "user_groups:8"]);
    s.broken.push("CacheDrop");
    refused(
        s.serve(clear_redis(claims("7"))),
        500,
        "clear_redis: deleting key 'user_groups:7': CacheDrop is broken",
    );
}

#[test]
fn a_reset_link_resets_the_password_once() {
    let mut s = services();
    s.users.push(person(1, "bob@example.org", "bob"));
    s.users.push(person(2, "ada@example.org", "old"));
    let bob = s.users[0].password_hash.clone();
    let request = RequestPasswordRequest {
        email_id: "ada@example.org".to_string(),
        app_id: "shop".to_string(),
    };
    let answer = s.serve(request_password_reset(request)).unwrap();
    assert_eq!(answer.message, "Password reset token created successfully");
    let link = "Use this link(expires within 5 minutes) to reset your password: https://iam.gingersociety.org/#/public/shop/reset-password/";
    let token = s.sent[0].message.strip_prefix(link).unwrap().to_string();
    assert_eq!(s.sent[0].subject, "Password Reset");
    assert_eq!(s.cache[&token], "2");
    assert_eq!(s.lives[&token], 300);
    let reset = || {
        reset_password(ResetPasswordRequest {
            token: token.clone(),
            new_password: "new".to_string(),
        })
    };
    assert_eq!(s.serve(reset()).unwrap().message, "Password updated successfully");
    assert!(bcrypt::verify("new", s.users[1].password_hash.as_ref().unwrap()).unwrap());
    assert_eq!(s.users[0].password_hash, bob);
    refused(s.serve(reset()), 404, "reset_password: reset token not found or expired: NotFound");
    s.cache.insert(token.clone(), "99".to_string());
    refused(
        s.serve(reset()),
        500,
        "reset_password: update touched 0 rows for user id=99: \"expected 1 row to be updated\"",
    );
    refused(
        s.serve(request_password_reset(RequestPasswordRequest {
            email_id: "eve@example.org".to_string(),
            app_id: "shop".to_string(),
        })),
        404,
        "request_password_reset: user with email 'eve@example.org' not found: NotFound",
    );
}

#[test]
fn an_invitation_is_accepted() {
    let mut s = services();
    let accept = || {
        accept_invite(
            "inv".to_string(),
            AcceptInviteRequest { password: "secret".to_string() },
        )
    };
    refused(
        s.serve(accept()),
        404,
        "accept_invite: invitation token not found or expired: NotFound",
    );
    s.cache.insert("inv".to_string(), "eve@example.org\nEve".to_string());
    assert_eq!(s.serve(accept()).unwrap(), "Invitation accepted, user registered successfully");
    let eve = &s.users[0];
    assert_eq!(eve.email_id, "eve@example.org");
    assert_eq!(eve.first_name, some("Eve"));
    assert_eq!(eve.last_name, some("Guest"));
    assert!(eve.is_root && eve.is_active);
    assert!(bcrypt::verify("secret", eve.password_hash.as_ref().unwrap()).unwrap());
    assert!(s.cache.is_empty());
    refused(
        s.serve(accept()),
        404,
        "accept_invite: invitation token not found or expired: NotFound",
    );
    assert_eq!(s.users.len(), 1);
    s.cache.insert("inv".to_string(), "odd".to_string());
    refused(
        s.serve(accept()),
        500,
        "accept_invite: deserializing cached invitation payload: no invitation",
    );
}

#[test]
fn a_profile_is_overwritten() {
    let mut s = services();
    s.users.push(person(1, "bob@example.org", "x"));
    s.users.push(person(2, "ada@example.org", "x"));
    let request = || UpdateProfileRequest {
        first_name: some("Augusta"),
        middle_name: None,
        last_name: some("King"),
        mobile_number: some("1"),
    };
    let answer = s.serve(update_profile(claims("2"), request())).unwrap();
    assert_eq!(answer.message, "Profile updated successfully");
    assert_eq!(s.users[1].first_name, some("Augusta"));
    assert_eq!(s.users[1].last_name, some("King"));
    assert_eq!(s.users[1].mobile_number, some("1"));
    assert_eq!(s.users[0].first_name, some("Ada"));
    refused(
        s.serve(update_profile(claims("9"), request())),
        404,
        "update_profile: no user found with id=9",
    );
    refused(
        s.serve(update_profile(claims("me"), request())),
        500,
        "update_profile: parsing claims.user_id 'me' as i64: ParseIntError { kind: InvalidDigit }",
    );
}

#[test]
fn the_maker_of_a_group_owns_it() {
    let mut s = services();
    s.cache.insert("user_groups:7".to_string(), "[]".to_string());
    let request = || CreateGroupRequest { id: "staff".to_string(), description: some("us") };
    let made = s.serve(create_group(claims("7"), request())).unwrap();
    assert_eq!(made.identifier, "staff");
    assert_eq!(made.short_text, some("us"));
    assert!(!made.disabled);
    assert_eq!(s.members, vec![(7, made.id)]);
    assert_eq!(s.owners, vec![(7, made.id)]);
    assert!(s.cache.is_empty());
    refused(
        s.serve(create_group(claims("8"), request())),
        409,
        "create_group: a group with identifier 'staff' already exists",
    );
    s.broken.push("AddOwner");
    let other = CreateGroupRequest { id: "other".to_string(), description: None };
    refused(
        s.serve(create_group(claims("7"), other)),
        500,
        "create_group: adding user 7 as owner of group id=101: AddOwner is broken",
    );
}

#[test]
fn membership_is_managed() {
    let mut s = services();
    s.users.push(person(7, "ada@example.org", "p"));
    s.groups.push(group(100, "staff"));
    let manage = |action: &str| {
        manage_membership(
            "staff".to_string(),
            "ada@example.org".to_string(),
            action.to_string(),
        )
    };
    assert_eq!(s.serve(manage("add-admin")).unwrap().status, "success");
    assert_eq!((s.members.len(), s.owners.len()), (1, 1));
    s.serve(manage("add-member")).unwrap();
    assert_eq!((s.members.len(), s.owners.len()), (1, 0));
    s.serve(manage("add-admin")).unwrap();
    s.serve(manage("remove")).unwrap();
    assert_eq!((s.members.len(), s.owners.len()), (0, 0));
    s.serve(manage("remove")).unwrap();
    assert_eq!((s.members.len(), s.owners.len()), (0, 0));
    refused(
        s.serve(manage("promote")),
        400,
        "manage_membership: unknown action 'promote' (expected add-member, add-admin, or remove)",
    );
    let by_id = manage_membership(
        "100".to_string(),
        "ada@example.org".to_string(),
        "add-member".to_string(),
    );
    s.serve(by_id).unwrap();
    assert_eq!(s.members, vec![(7, 100)]);
    let lost = manage_membership("5".to_string(), "x".to_string(), "remove".to_string());
    refused(s.serve(lost), 404, "manage_membership: group '5' not found: NotFound");
    let lost = manage_membership("staff".to_string(), "x".to_string(), "remove".to_string());
    refused(s.serve(lost), 404, "manage_membership: user 'x' not found: NotFound");
    for (what, action, message) in [
        ("RemoveOwner", "add-member", "removing user 7 from owners of group 100"),
        ("AddMember", "add-admin", "adding user 7 as member of group 100"),
        ("AddOwner", "add-admin", "adding user 7 as owner of group 100"),
        ("RemoveMember", "remove", "removing user 7 from members of group 100"),
    ] {
        s.broken = vec![what];
        refused(
            s.serve(manage(action)),
            500,
            &format!("manage_membership: {}: {} is broken", message, what),
        );
    }
}

#[test]
fn a_change_of_membership_that_fails_leaves_its_first_step() {
    let manage = |action: &str| {
        manage_membership(
            "staff".to_string(),
            "ada@example.org".to_string(),
            action.to_string(),
        )
    };
    for (what, action, owner, left) in [
        ("RemoveOwner", "add-member", true, (0, 1)),
        ("AddMember", "add-member", true, (0, 0)),
        ("AddMember", "add-admin", false, (0, 0)),
        ("AddOwner", "add-admin", false, (1, 0)),
    ] {
        let mut s = services();
        s.users.push(person(7, "ada@example.org", "p"));
        s.groups.push(group(100, "staff"));
        if owner {
            s.owners.push((7, 100));
        }
        s.broken = vec![what];
        assert!(s.serve(manage(action)).is_err());
        assert_eq!((s.members.len(), s.owners.len()), left);
    }
}

#[test]
fn members_are_told_with_who_owns_the_group() {
    let mut s = services();
    s.users.push(person(7, "ada@example.org", "p"));
    s.users.push(person(8, "bob@example.org", "p"));
    s.groups.push(group(100, "staff"));
    s.members = vec![(7, 100), (8, 100)];
    s.owners = vec![(8, 100)];
    let told = s.serve(get_members("100".to_string())).unwrap().users;
    assert_eq!(told.len(), 2);
    assert_eq!(told[0].pk, 7);
    assert!(!told[0].is_admin && told[1].is_admin);
    assert_eq!(told[0].first_name, "Ada");
    assert_eq!(told[0].last_name, "");
    assert_eq!(told[1].email_id, "bob@example.org");
    refused(
        s.serve(get_members("nobody".to_string())),
        404,
        "get_members: group 'nobody' not found",
    );
    let staff = || "staff".to_string();
    assert_eq!(s.serve(get_group_members_ids_user_land(staff(), claims("7"))).unwrap(), [7, 8]);
    assert_eq!(s.serve(get_group_members_ids_api_land(staff(), api_claims())).unwrap(), [7, 8]);
    let isc = ISCClaims { sub: "s".to_string(), exp: 1, org_id: "o".to_string(), scopes: vec![] };
    assert_eq!(s.serve(get_group_members_ids(staff(), isc)).unwrap(), [7, 8]);
    refused(
        s.serve(get_group_members_ids_user_land("100".to_string(), claims("7"))),
        404,
        "fetch_group_members_ids: group '100' not found",
    );
    s.broken.push("OwnersOf");
    refused(
        s.serve(get_members(staff())),
        500,
        "get_members: loading owners for group id=100: OwnersOf is broken",
    );
}

#[test]
fn memberships_are_told_as_they_are_known() {
    let groups = || GroupMemberships(vec!["staff".to_string(), "crew".to_string()]);
    let owned = || GroupOwnerships(vec!["crew".to_string()]);
    assert_eq!(get_group_memberships(claims("7"), groups()), ["staff", "crew"]);
    assert_eq!(get_group_ownserships(claims("7"), owned()), ["crew"]);
    let staff = is_member("staff".to_string(), groups(), owned());
    assert!(staff.is_member && !staff.is_owner);
    let crew = is_member("crew".to_string(), groups(), owned());
    assert!(crew.is_member && crew.is_owner);
    let other = is_member("other".to_string(), groups(), owned());
    assert!(!other.is_member && !other.is_owner);
}

#[test]
fn valid_tokens_are_told() {
    let told = validate_token(claims("7"));
    assert_eq!(told.sub, "ada@example.org");
    assert_eq!(told.exp, 1);
    assert_eq!(told.user_id, "7");
    assert_eq!(told.first_name, some("Ada"));
    let told = validate_api_token(api_claims());
    assert_eq!((told.sub.as_str(), told.exp, told.group_id), ("staff", 5, 100));
    assert_eq!(told.scopes, ["read"]);
}

#[test]
fn accessible_apps_are_those_without_a_group_and_those_of_the_user() {
    let mut s = services();
    s.groups.push(group(100, "staff"));
    s.groups.push(group(101, "crew"));
    s.apps = vec![
        app(1, "a", None),
        app(2, "b", Some(100)),
        app(3, "c", Some(101)),
        app(4, "d", Some(999)),
    ];
    let groups = GroupMemberships(vec!["staff".to_string()]);
    let told = s.serve(get_accessible_apps(claims("7"), groups)).unwrap();
    let names: Vec<&str> = told.iter().map(|a| a.name.as_str()).collect();
    assert_eq!(names, ["App 1", "App 2", "App 4"]);
    assert_eq!(told[0].redirection_path, some("/auth"));
    assert_eq!(told[0].app_url_dev, some("http://dev"));
    s.broken.push("AppListings");
    refused(
        s.serve(get_accessible_apps(claims("7"), GroupMemberships(vec![]))),
        500,
        "get_accessible_apps: loading apps with group info: AppListings is broken",
    );
}

#[test]
fn an_app_is_told_unless_it_is_disabled() {
    let mut s = services();
    s.apps.push(app(1, "shop", None));
    let told = s.serve(get_app_by_client_id("shop".to_string())).unwrap();
    assert_eq!(told.name, "App 1");
    assert_eq!(told.redirection_path, some("/auth"));
    s.apps[0].disabled = true;
    refused(
        s.serve(get_app_by_client_id("shop".to_string())),
        404,
        "get_app_by_client_id: app with client_id 'shop' not found or disabled: NotFound",
    );
}

#[test]
fn tokens_for_an_app_are_given_to_its_group() {
    let mut s = services();
    s.groups.push(group(100, "staff"));
    s.apps.push(app(1, "shop", Some(100)));
    let staff = || GroupMemberships(vec!["staff".to_string()]);
    let tokens =
        s.serve(generate_app_tokens("shop".to_string(), claims("7"), staff())).unwrap();
    let access = read_claims(&tokens.access_token);
    assert_eq!(access.client_id, some("shop"));
    assert_eq!(access.token_type, "access");
    assert_eq!(read_claims(&tokens.refresh_token).token_type, "refresh");
    assert_eq!(s.cache[&tokens.refresh_token], "{\"app_id\":\"shop\",\"user_id\":\"7\"}");
    assert_eq!(s.lives[&tokens.refresh_token], 3600);
    let again = RefreshTokenRequest { refresh_token: tokens.refresh_token.clone() };
    let fresh = read_claims(&s.serve(refresh_token(again)).unwrap().access_token);
    assert_eq!((fresh.client_id, fresh.token_type.as_str()), (some("shop"), "access"));
    assert_eq!(fresh.user_id, "7");
    refused(
        s.serve(generate_app_tokens(
            "shop".to_string(),
            claims("7"),
            GroupMemberships(vec!["crew".to_string()]),
        )),
        403,
        "generate_app_tokens: user 'ada@example.org' does not have access to app 'shop'",
    );
    s.broken.push("AppOfGroups");
    refused(
        s.serve(generate_app_tokens("shop".to_string(), claims("7"), staff())),
        500,
        "generate_app_tokens: checking access to app 'shop': AppOfGroups is broken",
    );
    s.broken = vec!["CachePut"];
    refused(
        s.serve(generate_app_tokens("shop".to_string(), claims("7"), staff())),
        500,
        "generate_app_tokens: caching session for app 'shop': CachePut is broken",
    );
}

fn app_request(name: Option<String>, disabled: Option<bool>) -> CreateOrUpdateAppRequest {
    CreateOrUpdateAppRequest {
        client_id: "shop".to_string(),
        name,
        logo_url: None,
        disabled,
        app_url_dev: None,
        app_url_stage: None,
        app_url_prod: None,
        group_id: None,
        tnc_link: None,
        allow_registration: None,
        description: some("buy"),
        auth_redirection_path: None,
        web_interface: None,
    }
}

#[test]
fn an_app_is_created_and_then_updated() {
    let mut s = services();
    let created =
        s.serve(create_or_update_app(app_request(None, Some(true)), api_claims())).unwrap();
    assert_eq!(created.location, "/app");
    assert_eq!(created.body.message, "App created successfully");
    assert_eq!(s.apps[0].name, "");
    assert!(s.apps[0].disabled && !s.apps[0].allow_registration && !s.apps[0].web_interface);
    assert_eq!(s.apps[0].description, some("buy"));

    s.apps[0].logo_url = some("logo");
    let updated =
        s.serve(create_or_update_app(app_request(some("Shop"), None), api_claims())).unwrap();
    assert_eq!(updated.body.message, "App updated successfully");
    assert_eq!(s.apps.len(), 1);
    assert_eq!(s.apps[0].name, "Shop");
    assert!(s.apps[0].disabled);
    assert_eq!(s.apps[0].logo_url, some("logo"));

    let before = copy_app(&s.apps[0]);
    s.serve(create_or_update_app(app_request(some("Shop"), None), api_claims())).unwrap();
    assert_eq!(s.apps[0], before);
    s.broken.push("UpdateApp");
    refused(
        s.serve(create_or_update_app(app_request(None, None), api_claims())),
        500,
        "create_or_update_app: updating app id=500: UpdateApp is broken",
    );
    s.apps.clear();
    s.broken = vec!["InsertApp"];
    refused(
        s.serve(create_or_update_app(app_request(None, None), api_claims())),
        500,
        "create_or_update_app: creating app with client_id 'shop': InsertApp is broken",
    );
}

fn api_token_request(days: i64) -> CreateApiTokenRequest {
    CreateApiTokenRequest {
        group_identifier: "staff".to_string(),
        name: "ci".to_string(),
        days_to_expire: days,
    }
}

fn session_request(token: &str, days: Option<i64>) -> CreateSessionTokenRequest {
    CreateSessionTokenRequest { api_token: token.to_string(), days_to_expire: days }
}

#[test]
fn an_api_token_is_exchanged_until_it_is_deactivated() {
    let mut s = services();
    s.groups.push(group(100, "staff"));
    let before = chrono::Utc::now();
    let token = s.serve(create_api_token(api_token_request(30), claims("7"))).unwrap().api_token;
    let after = chrono::Utc::now();
    let said = read_claims(&token);
    assert_eq!(said.token_type, "api");
    assert_eq!(said.user_id, "7");
    let month = chrono::Duration::days(30);
    assert!((before + month).timestamp() as usize <= said.exp);
    assert!(said.exp <= (after + month).timestamp() as usize);
    let stored = &s.tokens[0];
    assert_eq!((stored.parent_id, stored.is_active, stored.name.as_str()), (100, true, "ci"));
    assert_eq!(stored.token_str.as_ref(), Some(&token));
    let epoch = chrono::NaiveDate::from_ymd_opt(1970, 1, 1).unwrap();
    let day = |t: chrono::DateTime<chrono::Utc>| ((t + month).date_naive() - epoch).num_days();
    assert!(day(before) <= stored.expiry_date && stored.expiry_date <= day(after));
    assert!(before.timestamp_micros() <= stored.created_at);

    let session = s.serve(create_api_session_token(session_request(&token, None))).unwrap();
    assert_eq!(session.group_identifier, "staff");
    let said = read_api_claims(&session.session_token);
    assert_eq!((said.sub.as_str(), said.group_id), ("staff", 100));
    assert_eq!(said.scopes, ["read", "write"]);
    assert!(said.exp as i64 - chrono::Utc::now().timestamp() <= 1200);

    let listed = s.serve(get_api_tokens_by_group("staff".to_string())).unwrap();
    assert_eq!(listed.len(), 1);
    assert_eq!((listed[0].pk, listed[0].name.as_str(), listed[0].is_active), (900, "ci", true));

    let answer = s.serve(deactivate_api_token(900)).unwrap();
    assert_eq!(answer.message, "API token with id '900' has been deactivated");
    refused(
        s.serve(create_api_session_token(session_request(&token, None))),
        401,
        "create_api_session_token: API token not found or inactive",
    );
    s.serve(deactivate_api_token(900)).unwrap();
    assert_eq!(s.tokens.len(), 1);
    assert!(!s.tokens[0].is_active);
    refused(
        s.serve(deactivate_api_token(1)),
        404,
        "deactivate_api_token: token id=1 not found",
    );
}

#[test]
fn the_same_app_request_changes_nothing() {
    let mut s = services();
    let told = |app: &App| {
        (app.id, app.client_id.clone(), app.name.clone(), app.disabled, app.description.clone())
    };
    let request = || app_request(some("Shop"), Some(true));
    let first = s.serve(create_or_update_app(request(), api_claims())).unwrap();
    assert_eq!(first.body.message, "App created successfully");
    let stored: Vec<_> = s.apps.iter().map(told).collect();
    let second = s.serve(create_or_update_app(request(), api_claims())).unwrap();
    assert_eq!(second.body.message, "App updated successfully");
    assert_eq!(s.apps.iter().map(told).collect::<Vec<_>>(), stored);
    assert_eq!(stored.len(), 1);
}

#[test]
fn the_maker_of_a_group_is_its_one_member_until_removed() {
    let mut s = services();
    s.users.push(person(7, "ada@example.org", "secret"));
    let request = CreateGroupRequest { id: "crew".to_string(), description: None };
    s.serve(create_group(claims("7"), request)).unwrap();
    let told = s.serve(get_members("crew".to_string())).unwrap();
    assert_eq!(told.users.len(), 1);
    assert_eq!((told.users[0].pk, told.users[0].is_admin), (7, true));
    s.serve(manage_membership(
        "crew".to_string(),
        "ada@example.org".to_string(),
        "remove".to_string(),
    ))
    .unwrap();
    assert!(s.serve(get_members("crew".to_string())).unwrap().users.is_empty());
}

#[test]
fn api_tokens_report_what_failed() {
    let mut s = services();
    refused(
        s.serve(create_api_token(api_token_request(30), claims("7"))),
        404,
        "create_api_token: group 'staff' not found: NotFound",
    );
    refused(
        s.serve(get_api_tokens_by_group("staff".to_string())),
        404,
        "get_api_tokens_by_group: group 'staff' not found",
    );
    s.groups.push(group(100, "staff"));
    s.broken.push("InsertApiToken");
    refused(
        s.serve(create_api_token(api_token_request(-1), claims("7"))),
        500,
        "create_api_token: inserting token for group id=100: InsertApiToken is broken",
    );
    s.environment.clear();
    refused(
        s.serve(create_api_token(api_token_request(30), claims("7"))),
        500,
        "create_api_token: reading JWT_SECRET env var: NotPresent",
    );
}

#[test]
fn an_expiry_beyond_the_calendar_is_refused() {
    let mut s = services();
    s.groups.push(group(100, "staff"));
    refused(
        s.serve(create_api_token(api_token_request(i64::MAX), claims("7"))),
        400,
        "create_api_token: days_to_expire=9223372036854775807 is beyond the calendar",
    );
    refused(
        s.serve(create_api_token(api_token_request(-200_000_000), claims("7"))),
        400,
        "create_api_token: days_to_expire=-200000000 is beyond the calendar",
    );
    assert!(s.tokens.is_empty());
    let made = s.serve(create_api_token(api_token_request(30), claims("7"))).unwrap();
    refused(
        s.serve(create_api_session_token(session_request(&made.api_token, Some(i64::MIN)))),
        400,
        "create_api_session_token: days_to_expire=-9223372036854775808 is beyond the calendar",
    );
}

#[test]
fn a_clock_at_the_end_of_the_calendar_is_reported() {
    let last = 8_210_266_876_799_000_000;
    let h = create_api_session_token(session_request("t", None));
    let h = match h.resume(Reply::Done(Ok(()))) {
        Progress::Ask(h) => h,
        _ => panic!("ended early"),
    };
    let token = ApiToken {
        id: 1,
        parent_id: 100,
        expiry_date: 0,
        created_at: 0,
        is_active: true,
        name: "ci".to_string(),
        token_str: some("t"),
    };
    let h = match h.resume(Reply::MaybeApiToken(Ok(Some((token, group(100, "staff")))))) {
        Progress::Ask(h) => h,
        _ => panic!("ended early"),
    };
    match h.resume(Reply::Now(last)) {
        Progress::Done(r) => refused(
            r,
            500,
            "create_api_session_token: the expiry is beyond the calendar",
        ),
        _ => panic!("went on"),
    }
    let h = create_api_session_token_interactive(
        claims("7"),
        "staff".to_string(),
        GroupOwnerships(vec![]),
    );
    let h = match h.resume(Reply::Done(Ok(()))) {
        Progress::Ask(h) => h,
        _ => panic!("ended early"),
    };
    let h = match h.resume(Reply::MaybeGroup(Ok(Some(group(100, "staff"))))) {
        Progress::Ask(h) => h,
        _ => panic!("ended early"),
    };
    match h.resume(Reply::Now(last)) {
        Progress::Done(r) => refused(
            r,
            500,
            "create_api_session_token_interactive: the expiry is beyond the calendar",
        ),
        _ => panic!("went on"),
    }
}

#[test]
fn only_owners_may_write_in_an_interactive_session() {
    let mut s = services();
    s.groups.push(group(100, "staff"));
    let session = |owned: &[&str]| {
        create_api_session_token_interactive(
            claims("7"),
            "staff".to_string(),
            GroupOwnerships(owned.iter().map(|g| g.to_string()).collect()),
        )
    };
    let told = s.serve(session(&["staff"])).unwrap();
    let said = read_api_claims(&told.session_token);
    assert_eq!(said.scopes, ["read", "write"]);
    let left = said.exp as i64 - chrono::Utc::now().timestamp();
    assert!(35_990 <= left && left <= 36_000);
    let told = s.serve(session(&["crew"])).unwrap();
    assert_eq!(read_api_claims(&told.session_token).scopes, ["read"]);
    assert_eq!(told.group_identifier, "staff");
    s.groups.clear();
    refused(
        s.serve(session(&[])),
        404,
        "create_api_session_token_interactive: group 'staff' not found",
    );
}
