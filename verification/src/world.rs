//! The services that the handlers ask, as mathematics: what the database, the
//! cache, the environment and the mail service hold, what they tell, and what a
//! handler leaves behind in them.

use crate::models::{
    ApiToken, App, AppChanges, AppListing, EmailView, Group, GroupKey, InviteRequest, Member,
    NewApiToken, NewAppView, NewUser, PendingRegistration, UpdateProfileRequest, User,
};
use crate::protocol::{
    answered, fits_query, Handler, NeedView, Outcome, QueryView, Reply, TaskView,
};
use crate::text::{i64_value, integers_among, maybe_text, texts};
use vstd::prelude::*;

verus! {

/// A row of the table of accounts, without the times at which it was made and
/// last changed, which no request reads.
pub struct Account {
    pub id: i64,
    pub first_name: Option<Seq<char>>,
    pub last_name: Option<Seq<char>>,
    pub middle_name: Option<Seq<char>>,
    pub email: Seq<char>,
    pub mobile_number: Option<Seq<char>>,
    pub password_hash: Option<Seq<char>>,
    pub is_root: bool,
    pub is_active: bool,
}

/// A row of the table of groups.
pub struct GroupRow {
    pub id: i64,
    pub identifier: Seq<char>,
    pub disabled: bool,
    pub short_text: Option<Seq<char>>,
}

/// A row of the table of applications.
pub struct AppRow {
    pub id: i64,
    pub app: NewAppView,
}

/// A row of the table of API tokens, without the time at which it was last
/// changed, which no request reads.
pub struct TokenRow {
    pub id: i64,
    pub parent_id: i64,
    pub expiry_date: i64,
    pub created_at: i64,
    pub is_active: bool,
    pub name: Seq<char>,
    pub token: Option<Seq<char>>,
}

/// A registration that waits for its confirmation.
pub struct PendingView {
    pub email: Seq<char>,
    pub hashed_password: Seq<char>,
}

/// An invitation that waits to be accepted.
pub struct InviteView {
    pub email: Seq<char>,
    pub first_name: Seq<char>,
    pub last_name: Seq<char>,
    pub middle_name: Option<Seq<char>>,
    pub is_root: bool,
}

/// What the services hold. Of the cache, only what has not expired counts.
pub struct World {
    pub users: Set<Account>,
    pub groups: Set<GroupRow>,
    /// Who is in a group, as pairs of the id of a user and the id of a group. Each
    /// pair stands there once.
    pub members: Set<(i64, i64)>,
    /// Who owns a group, likewise.
    pub owners: Set<(i64, i64)>,
    pub apps: Set<AppRow>,
    pub tokens: Set<TokenRow>,
    pub cache: Map<Seq<char>, Seq<char>>,
    /// The pending registrations that texts stand for.
    pub pending: Map<Seq<char>, PendingView>,
    /// The invitations that texts stand for.
    pub invites: Map<Seq<char>, InviteView>,
    pub environment: Map<Seq<char>, Seq<char>>,
    pub sent: Seq<EmailView>,
}

/// The row of an account.
pub open spec fn account_of(user: User) -> Account {
    Account {
        id: user.id,
        first_name: maybe_text(user.first_name),
        last_name: maybe_text(user.last_name),
        middle_name: maybe_text(user.middle_name),
        email: user.email_id@,
        mobile_number: maybe_text(user.mobile_number),
        password_hash: maybe_text(user.password_hash),
        is_root: user.is_root,
        is_active: user.is_active,
    }
}

/// The row that a new account gets under an id.
pub open spec fn new_account(user: NewUser, id: i64) -> Account {
    Account {
        id,
        first_name: maybe_text(user.first_name),
        last_name: maybe_text(user.last_name),
        middle_name: maybe_text(user.middle_name),
        email: user.email_id@,
        mobile_number: maybe_text(user.mobile_number),
        password_hash: maybe_text(user.password_hash),
        is_root: user.is_root,
        is_active: user.is_active,
    }
}

/// The row of a group.
pub open spec fn group_row(group: Group) -> GroupRow {
    GroupRow {
        id: group.id,
        identifier: group.identifier@,
        disabled: group.disabled,
        short_text: maybe_text(group.short_text),
    }
}

/// The row of an application.
pub open spec fn app_row(app: App) -> AppRow {
    AppRow {
        id: app.id,
        app: NewAppView {
            client_id: app.client_id@,
            name: app.name@,
            logo_url: maybe_text(app.logo_url),
            disabled: app.disabled,
            app_url_dev: maybe_text(app.app_url_dev),
            app_url_stage: maybe_text(app.app_url_stage),
            app_url_prod: maybe_text(app.app_url_prod),
            group_id: app.group_id,
            tnc_link: maybe_text(app.tnc_link),
            allow_registration: app.allow_registration,
            description: maybe_text(app.description),
            auth_redirection_path: maybe_text(app.auth_redirection_path),
            web_interface: app.web_interface,
        },
    }
}

/// The row of an API token.
pub open spec fn token_row(token: ApiToken) -> TokenRow {
    TokenRow {
        id: token.id,
        parent_id: token.parent_id,
        expiry_date: token.expiry_date,
        created_at: token.created_at,
        is_active: token.is_active,
        name: token.name@,
        token: maybe_text(token.token_str),
    }
}

/// The row that a new API token gets under an id.
pub open spec fn new_token_row(token: NewApiToken, id: i64) -> TokenRow {
    TokenRow {
        id,
        parent_id: token.parent_id,
        expiry_date: token.expiry_date,
        created_at: token.created_at,
        is_active: token.is_active,
        name: token.name@,
        token: maybe_text(token.token_str),
    }
}

/// A pending registration as texts.
pub open spec fn pending_view(pending: PendingRegistration) -> PendingView {
    PendingView { email: pending.email@, hashed_password: pending.hashed_password@ }
}

/// An invitation as texts.
pub open spec fn invite_view(invite: InviteRequest) -> InviteView {
    InviteView {
        email: invite.email@,
        first_name: invite.first_name@,
        last_name: invite.last_name@,
        middle_name: maybe_text(invite.middle_name),
        is_root: invite.is_root,
    }
}

/// Whether a listing shows an application, apart from its group.
pub open spec fn shows(listing: AppListing, app: NewAppView) -> bool {
    &&& listing.name@ == app.name
    &&& maybe_text(listing.logo_url) == app.logo_url
    &&& listing.allow_registration == app.allow_registration
    &&& maybe_text(listing.tnc_link) == app.tnc_link
    &&& maybe_text(listing.app_url_dev) == app.app_url_dev
    &&& maybe_text(listing.app_url_stage) == app.app_url_stage
    &&& maybe_text(listing.app_url_prod) == app.app_url_prod
    &&& maybe_text(listing.description) == app.description
    &&& maybe_text(listing.auth_redirection_path) == app.auth_redirection_path
    &&& listing.web_interface == app.web_interface
}

/// Whether a row is the one that a key looks up.
pub open spec fn has_key(group: GroupRow, key: GroupKey) -> bool {
    match key {
        GroupKey::Id(id) => group.id == id,
        GroupKey::Identifier(identifier) => group.identifier == identifier@,
    }
}

/// An account with another password hash.
pub open spec fn with_hash(account: Account, hash: Seq<char>) -> Account {
    Account { password_hash: Some(hash), ..account }
}

/// An account with another profile.
pub open spec fn with_profile(account: Account, profile: UpdateProfileRequest) -> Account {
    Account {
        first_name: maybe_text(profile.first_name),
        middle_name: maybe_text(profile.middle_name),
        last_name: maybe_text(profile.last_name),
        mobile_number: maybe_text(profile.mobile_number),
        ..account
    }
}

/// A text, or else the one that stood there before.
pub open spec fn text_or(change: Option<String>, before: Option<Seq<char>>) -> Option<Seq<char>> {
    match change {
        Some(text) => Some(text@),
        None => before,
    }
}

/// An application with some fields overwritten.
pub open spec fn changed(app: NewAppView, changes: AppChanges) -> NewAppView {
    NewAppView {
        client_id: app.client_id,
        name: match changes.name {
            Some(name) => name@,
            None => app.name,
        },
        logo_url: text_or(changes.logo_url, app.logo_url),
        disabled: match changes.disabled {
            Some(disabled) => disabled,
            None => app.disabled,
        },
        app_url_dev: text_or(changes.app_url_dev, app.app_url_dev),
        app_url_stage: text_or(changes.app_url_stage, app.app_url_stage),
        app_url_prod: text_or(changes.app_url_prod, app.app_url_prod),
        group_id: match changes.group_id {
            Some(id) => Some(id),
            None => app.group_id,
        },
        tnc_link: text_or(changes.tnc_link, app.tnc_link),
        allow_registration: match changes.allow_registration {
            Some(allow) => allow,
            None => app.allow_registration,
        },
        description: text_or(changes.description, app.description),
        auth_redirection_path: text_or(changes.auth_redirection_path, app.auth_redirection_path),
        web_interface: match changes.web_interface {
            Some(web) => web,
            None => app.web_interface,
        },
    }
}

/// The accounts, of which those with an address have another password hash.
pub open spec fn rehashed(users: Set<Account>, email: Seq<char>, hash: Seq<char>) -> Set<Account> {
    users.map(
        |a: Account|
            if a.email == email {
                with_hash(a, hash)
            } else {
                a
            },
    )
}

/// The accounts, of which the one with an id has another password hash.
pub open spec fn rehashed_by_id(users: Set<Account>, id: i64, hash: Seq<char>) -> Set<Account> {
    users.map(
        |a: Account|
            if a.id == id {
                with_hash(a, hash)
            } else {
                a
            },
    )
}

/// The accounts, of which the one with an id has another profile.
pub open spec fn reprofiled(
    users: Set<Account>,
    id: i64,
    profile: UpdateProfileRequest,
) -> Set<Account> {
    users.map(
        |a: Account|
            if a.id == id {
                with_profile(a, profile)
            } else {
                a
            },
    )
}

/// The applications, of which the one with an id has some fields overwritten.
pub open spec fn apps_changed(apps: Set<AppRow>, id: i64, changes: AppChanges) -> Set<AppRow> {
    apps.map(
        |a: AppRow|
            if a.id == id {
                AppRow { app: changed(a.app, changes), ..a }
            } else {
                a
            },
    )
}

/// The API tokens, of which the one with an id is inactive.
pub open spec fn deactivated(tokens: Set<TokenRow>, id: i64) -> Set<TokenRow> {
    tokens.map(
        |t: TokenRow|
            if t.id == id {
                TokenRow { is_active: false, ..t }
            } else {
                t
            },
    )
}

/// Whether groups have ids of their own.
pub open spec fn group_ids_are_unique(world: World) -> bool {
    forall|g: GroupRow, h: GroupRow| #[trigger]
        world.groups.contains(g) && #[trigger] world.groups.contains(h) && g.id == h.id ==> g == h
}

/// Whether no account has an id.
pub open spec fn unused_user_id(users: Set<Account>, id: i64) -> bool {
    forall|a: Account| #[trigger] users.contains(a) ==> a.id != id
}

/// An id that no account has.
pub open spec fn new_user_id(users: Set<Account>) -> i64 {
    choose|id: i64| unused_user_id(users, id)
}

/// Whether no application has an id.
pub open spec fn unused_app_id(apps: Set<AppRow>, id: i64) -> bool {
    forall|a: AppRow| #[trigger] apps.contains(a) ==> a.id != id
}

/// An id that no application has.
pub open spec fn new_app_id(apps: Set<AppRow>) -> i64 {
    choose|id: i64| unused_app_id(apps, id)
}

/// Whether no API token has an id.
pub open spec fn unused_token_id(tokens: Set<TokenRow>, id: i64) -> bool {
    forall|t: TokenRow| #[trigger] tokens.contains(t) ==> t.id != id
}

/// An id that no API token has.
pub open spec fn new_token_id(tokens: Set<TokenRow>) -> i64 {
    choose|id: i64| unused_token_id(tokens, id)
}

/// Whether a reply says that a service failed or found nothing.
pub open spec fn is_error(reply: Reply) -> bool {
    match reply {
        Reply::Done(r) => r is Err,
        Reply::Rows(r) => r is Err,
        Reply::Flag(r) => r is Err,
        Reply::Text(r) => r is Err,
        Reply::MaybeText(r) => r is Err,
        Reply::Texts(r) => r is Err,
        Reply::Id(r) => r is Err,
        Reply::MaybeId(r) => r is Err,
        Reply::Ids(r) => r is Err,
        Reply::User(r) => r is Err,
        Reply::MaybeUser(r) => r is Err,
        Reply::Group(r) => r is Err,
        Reply::MaybeGroup(r) => r is Err,
        Reply::Members(r) => r is Err,
        Reply::App(r) => r is Err,
        Reply::MaybeApp(r) => r is Err,
        Reply::Listings(r) => r is Err,
        Reply::ApiToken(r) => r is Err,
        Reply::ApiTokens(r) => r is Err,
        Reply::MaybeApiToken(r) => r is Err,
        Reply::Pending(r) => r is Err,
        Reply::Invite(r) => r is Err,
        Reply::Drawn(_) => false,
        Reply::Now(_) => false,
        Reply::Token(r) => r is Err,
        Reply::Claims(r) => r is Err,
    }
}

impl World {
    /// Whether an address belongs to an account.
    pub open spec fn has_email(self, email: Seq<char>) -> bool {
        exists|a: Account| #[trigger] self.users.contains(a) && a.email == email
    }

    /// Whether a key looks up a group.
    pub open spec fn has_group(self, key: GroupKey) -> bool {
        exists|g: GroupRow| #[trigger] self.groups.contains(g) && has_key(g, key)
    }

    /// Whether a client id belongs to an application.
    pub open spec fn has_app(self, client_id: Seq<char>) -> bool {
        exists|a: AppRow| #[trigger] self.apps.contains(a) && a.app.client_id == client_id
    }

    /// Whether a client id belongs to an application that is not disabled.
    pub open spec fn has_enabled_app(self, client_id: Seq<char>) -> bool {
        exists|a: AppRow| #[trigger]
            self.apps.contains(a) && a.app.client_id == client_id && !a.app.disabled
    }

    /// Whether an application belongs to one of some groups, which are named by
    /// identifier or by id.
    pub open spec fn app_of_groups(
        self,
        app: AppRow,
        identifiers: Seq<Seq<char>>,
        ids: Seq<i64>,
    ) -> bool {
        exists|g: GroupRow| #[trigger]
            self.groups.contains(g) && app.app.group_id == Some(g.id) && (identifiers.contains(
                g.identifier,
            ) || ids.contains(g.id))
    }

    /// Whether an API token is an active one of a group.
    pub open spec fn active_token(self, token: TokenRow, group: GroupRow, text: Seq<char>) -> bool {
        &&& self.tokens.contains(token)
        &&& token.token == Some(text)
        &&& token.is_active
        &&& self.groups.contains(group)
        &&& group.id == token.parent_id
    }

    /// Whether there is an active API token with a text.
    pub open spec fn has_active_token(self, text: Seq<char>) -> bool {
        exists|t: TokenRow, g: GroupRow| #[trigger] self.active_token(t, g, text)
    }

    /// Whether some ids are those of the members of a group.
    pub open spec fn has_members(self, group: i64, ids: Seq<i64>) -> bool {
        forall|id: i64| self.members.contains((id, group)) <==> #[trigger] ids.contains(id)
    }

    /// Whether some identifiers are those of the groups that a user is a member of.
    pub open spec fn has_groups(self, user: i64, identifiers: Seq<Seq<char>>) -> bool {
        forall|identifier: Seq<char>| #[trigger]
            identifiers.contains(identifier) <==> exists|g: GroupRow| #[trigger]
                self.groups.contains(g) && g.identifier == identifier && self.members.contains(
                    (user, g.id),
                )
    }

    /// Whether an application is open to a member of some groups, which are given
    /// by identifier or by id: it is not disabled, and it has no group or one of
    /// these.
    pub open spec fn open_to(self, client_id: Seq<char>, groups: Seq<Seq<char>>) -> bool {
        &&& self.has_enabled_app(client_id)
        &&& exists|a: AppRow| #[trigger]
            self.apps.contains(a) && a.app.client_id == client_id && ((a.app.group_id is None
                && !a.app.disabled) || self.app_of_groups(a, groups, integers_among(groups)))
    }

    /// Whether no group has an id, and nothing refers to one with it.
    pub open spec fn unused_group_id(self, id: i64) -> bool {
        &&& forall|g: GroupRow| #[trigger] self.groups.contains(g) ==> g.id != id
        &&& forall|user: i64| !#[trigger] self.members.contains((user, id))
        &&& forall|user: i64| !#[trigger] self.owners.contains((user, id))
    }

    /// Whether an application has a group, which has an identifier.
    pub open spec fn app_in(self, app: AppRow, identifier: Seq<char>) -> bool {
        exists|g: GroupRow| #[trigger]
            self.groups.contains(g) && app.app.group_id == Some(g.id) && g.identifier
                == identifier
    }

    /// Whether an application has a group.
    pub open spec fn app_has_group(self, app: AppRow) -> bool {
        exists|g: GroupRow| #[trigger]
            self.groups.contains(g) && app.app.group_id == Some(g.id)
    }

    /// Whether a listing is one of an application, with the identifier of its group
    /// if it has one.
    pub open spec fn lists(self, listing: AppListing, app: AppRow) -> bool {
        &&& self.apps.contains(app)
        &&& shows(listing, app.app)
        &&& match listing.group_identifier {
            Some(identifier) => self.app_in(app, identifier@),
            None => !self.app_has_group(app),
        }
    }

    /// Whether some listings are those of the applications.
    pub open spec fn has_listings(self, listings: Seq<AppListing>) -> bool {
        &&& forall|i: int|
            0 <= i < listings.len() ==> exists|app: AppRow| self.lists(
                #[trigger] listings[i],
                app,
            )
        &&& forall|app: AppRow| #[trigger]
            self.apps.contains(app) ==> exists|i: int|
                0 <= i < listings.len() && self.lists(#[trigger] listings[i], app)
    }

    /// Whether there is an API token with an id.
    pub open spec fn has_token(self, id: i64) -> bool {
        exists|t: TokenRow| #[trigger] self.tokens.contains(t) && t.id == id
    }

    /// Whether some API tokens are those of a group.
    pub open spec fn has_tokens(self, group: i64, tokens: Seq<ApiToken>) -> bool {
        let rows = tokens.map_values(|t: ApiToken| token_row(t));
        &&& rows.no_duplicates()
        &&& forall|t: TokenRow|
            (self.tokens.contains(t) && t.parent_id == group) <==> #[trigger] rows.contains(t)
    }

    /// Whether some ids are those of the owners of a group.
    pub open spec fn has_owners(self, group: i64, ids: Seq<i64>) -> bool {
        forall|id: i64| self.owners.contains((id, group)) <==> #[trigger] ids.contains(id)
    }

    /// Whether a reply tells the truth. A service may fail whenever it is asked,
    /// and what is cached may expire before it is read.
    pub open spec fn tells(self, query: QueryView, reply: Reply) -> bool {
        fits_query(query, reply) && match (query, reply) {
            (QueryView::UserByEmail(email), Reply::User(Ok(u))) => self.users.contains(
                account_of(u),
            ) && u.email_id@ == email,
            (QueryView::MaybeUserByEmail(email), Reply::MaybeUser(Ok(Some(u)))) =>
                self.users.contains(account_of(u)) && u.email_id@ == email,
            (QueryView::MaybeUserByEmail(email), Reply::MaybeUser(Ok(None))) => !self.has_email(
                email,
            ),
            (QueryView::SetPasswordByEmail { email, .. }, Reply::Rows(Ok(n))) => n > 0
                ==> self.has_email(email),
            (QueryView::SetPasswordById { id, .. }, Reply::Rows(Ok(n))) => n > 0 ==> exists|
                a: Account,
            | #[trigger] self.users.contains(a) && a.id == id,
            (QueryView::UpdateProfile { id, .. }, Reply::Rows(Ok(n))) => n > 0 ==> exists|
                a: Account,
            | #[trigger] self.users.contains(a) && a.id == id,
            (QueryView::GroupsOfUser(user), Reply::Texts(Ok(list))) => self.has_groups(
                user,
                texts(list@),
            ),
            (QueryView::FindGroup(key), Reply::Group(Ok(g))) => self.groups.contains(group_row(g))
                && has_key(group_row(g), key),
            (QueryView::MaybeGroup(key), Reply::MaybeGroup(Ok(Some(g)))) => self.groups.contains(
                group_row(g),
            ) && has_key(group_row(g), key),
            (QueryView::MaybeGroup(key), Reply::MaybeGroup(Ok(None))) => !self.has_group(key),
            (QueryView::MaybeGroupId(key), Reply::MaybeId(Ok(Some(id)))) => exists|g: GroupRow|
                #[trigger] self.groups.contains(g) && has_key(g, key) && g.id == id,
            (QueryView::MaybeGroupId(key), Reply::MaybeId(Ok(None))) => !self.has_group(key),
            (QueryView::InsertGroup(new), Reply::Group(Ok(g))) => g.identifier@ == new.identifier@
                && g.disabled == new.disabled && maybe_text(g.short_text) == maybe_text(
                new.short_text,
            ) && self.unused_group_id(g.id),
            (QueryView::MembersOf(group), Reply::Members(Ok(list))) => self.has_members(
                group,
                list@.map_values(|m: Member| m.id),
            ) && list@.map_values(|m: Member| m.id).no_duplicates(),
            (QueryView::MemberIdsOf(group), Reply::Ids(Ok(ids))) => self.has_members(group, ids@),
            (QueryView::OwnersOf(group), Reply::Ids(Ok(ids))) => self.has_owners(group, ids@),
            (QueryView::EnabledApp(client_id), Reply::App(Ok(a))) => self.apps.contains(app_row(a))
                && a.client_id@ == client_id && !a.disabled,
            (
                QueryView::AppOfGroups { client_id, identifiers, ids },
                Reply::MaybeId(Ok(Some(id))),
            ) => exists|a: AppRow| #[trigger]
                self.apps.contains(a) && a.id == id && a.app.client_id == client_id
                    && self.app_of_groups(a, identifiers, ids),
            (
                QueryView::AppOfGroups { client_id, identifiers, ids },
                Reply::MaybeId(Ok(None)),
            ) => forall|a: AppRow| #[trigger]
                self.apps.contains(a) && a.app.client_id == client_id ==> !self.app_of_groups(
                    a,
                    identifiers,
                    ids,
                ),
            (QueryView::MaybeApp(client_id), Reply::MaybeApp(Ok(Some(a)))) => self.apps.contains(
                app_row(a),
            ) && a.client_id@ == client_id,
            (QueryView::MaybeApp(client_id), Reply::MaybeApp(Ok(None))) => !self.has_app(
                client_id,
            ),
            (
                QueryView::ActiveApiToken(text),
                Reply::MaybeApiToken(Ok(Some((token, group)))),
            ) => self.active_token(token_row(token), group_row(group), text),
            (
                QueryView::ActiveApiToken(text),
                Reply::MaybeApiToken(Ok(None)),
            ) => !self.has_active_token(text),
            (QueryView::ApiTokenById(id), Reply::ApiToken(Ok(Some(token)))) =>
                self.tokens.contains(token_row(token)) && token.id == id,
            (QueryView::ApiTokenById(id), Reply::ApiToken(Ok(None))) => !self.has_token(id),
            (QueryView::ApiTokensOf(group), Reply::ApiTokens(Ok(tokens))) => self.has_tokens(
                group,
                tokens@,
            ),
            (QueryView::AppListings, Reply::Listings(Ok(listings))) => self.has_listings(
                listings@,
            ),
            (QueryView::CacheText(key), Reply::Text(Ok(text))) => self.cache.contains_pair(
                key,
                text@,
            ),
            (QueryView::CacheMaybeText(key), Reply::MaybeText(Ok(Some(text)))) =>
                self.cache.contains_pair(key, text@),
            (QueryView::CacheId(key), Reply::Id(Ok(id))) => self.cache.contains_key(key)
                && i64_value(self.cache[key]) == Some(id),
            (QueryView::CacheHas(key), Reply::Flag(Ok(true))) => self.cache.contains_key(key),
            (QueryView::Variable(name), Reply::Text(Ok(value))) => self.environment.contains_pair(
                name,
                value@,
            ),
            (QueryView::WritePending(pending), Reply::Text(Ok(text))) => self.pending.contains_key(
                text@,
            ) ==> self.pending[text@] == pending_view(pending),
            (QueryView::ReadPending(text), Reply::Pending(Ok(pending))) =>
                self.pending.contains_pair(text, pending_view(pending)),
            (QueryView::ReadInvite(text), Reply::Invite(Ok(invite))) =>
                self.invites.contains_pair(text, invite_view(invite)),
            _ => true,
        }
    }

    /// Whether a question has an answer, so that only a failing service or an
    /// expired entry of the cache leaves it without one.
    pub open spec fn can_tell(self, query: QueryView) -> bool {
        match query {
            QueryView::UserByEmail(email) => self.has_email(email),
            QueryView::FindGroup(key) => self.has_group(key),
            QueryView::EnabledApp(client_id) => self.has_enabled_app(client_id),
            QueryView::CacheText(key) => self.cache.contains_key(key),
            QueryView::CacheId(key) => self.cache.contains_key(key) && i64_value(self.cache[key])
                is Some,
            QueryView::Variable(name) => self.environment.contains_key(name),
            QueryView::ReadPending(text) => self.pending.contains_key(text),
            QueryView::ReadInvite(text) => self.invites.contains_key(text),
            _ => true,
        }
    }

    /// Whether a reply comes from a service that does not fail, and from a cache
    /// in which nothing expires.
    pub open spec fn smooth(self, query: QueryView, reply: Reply) -> bool {
        &&& is_error(reply) ==> !self.can_tell(query)
        &&& match (query, reply) {
            (QueryView::CacheHas(key), Reply::Flag(Ok(found))) => found == self.cache.contains_key(
                key,
            ),
            (QueryView::CacheMaybeText(key), Reply::MaybeText(Ok(None))) =>
                !self.cache.contains_key(key),
            (QueryView::SetPasswordByEmail { email, .. }, Reply::Rows(Ok(n))) => n > 0
                <==> self.has_email(email),
            (QueryView::SetPasswordById { id, .. }, Reply::Rows(Ok(n)))
            | (QueryView::UpdateProfile { id, .. }, Reply::Rows(Ok(n))) => n > 0 <==> exists|
                a: Account,
            | #[trigger] self.users.contains(a) && a.id == id,
            _ => true,
        }
    }

    /// What the services hold after a reply. One that failed has changed nothing;
    /// what the cache was found not to hold has expired if it was there before.
    pub open spec fn after(self, query: QueryView, reply: Reply) -> World {
        if is_error(reply) {
            self
        } else {
            match (query, reply) {
                (QueryView::SetPasswordByEmail { email, hash }, _) => World {
                    users: rehashed(self.users, email, hash),
                    ..self
                },
                (QueryView::SetPasswordById { id, hash }, _) => World {
                    users: rehashed_by_id(self.users, id, hash),
                    ..self
                },
                (QueryView::UpdateProfile { id, profile }, _) => World {
                    users: reprofiled(self.users, id, profile),
                    ..self
                },
                (QueryView::InsertUser(user), _) => World {
                    users: self.users.insert(new_account(user, new_user_id(self.users))),
                    ..self
                },
                (QueryView::InsertGroup(_), Reply::Group(Ok(group))) => World {
                    groups: self.groups.insert(group_row(group)),
                    ..self
                },
                (QueryView::AddMember { user, group }, _) => World {
                    members: self.members.insert((user, group)),
                    ..self
                },
                (QueryView::AddOwner { user, group }, _) => World {
                    owners: self.owners.insert((user, group)),
                    ..self
                },
                (QueryView::RemoveMember { user, group }, _) => World {
                    members: self.members.remove((user, group)),
                    ..self
                },
                (QueryView::RemoveOwner { user, group }, _) => World {
                    owners: self.owners.remove((user, group)),
                    ..self
                },
                (QueryView::UpdateApp { id, changes }, _) => World {
                    apps: apps_changed(self.apps, id, changes),
                    ..self
                },
                (QueryView::InsertApp(app), _) => World {
                    apps: self.apps.insert(AppRow { id: new_app_id(self.apps), app }),
                    ..self
                },
                (QueryView::InsertApiToken(token), _) => World {
                    tokens: self.tokens.insert(new_token_row(token, new_token_id(self.tokens))),
                    ..self
                },
                (QueryView::DeactivateApiToken(id), _) => World {
                    tokens: deactivated(self.tokens, id),
                    ..self
                },
                (QueryView::CachePut { key, value, .. }, _) => World {
                    cache: self.cache.insert(key, value),
                    ..self
                },
                (QueryView::CacheDrop(key), _) => World { cache: self.cache.remove(key), ..self },
                (QueryView::CacheHas(key), Reply::Flag(Ok(false))) => World {
                    cache: self.cache.remove(key),
                    ..self
                },
                (QueryView::CacheMaybeText(key), Reply::MaybeText(Ok(None))) => World {
                    cache: self.cache.remove(key),
                    ..self
                },
                (QueryView::SendEmail { message, .. }, _) => World {
                    sent: self.sent.push(message),
                    ..self
                },
                (QueryView::WritePending(pending), Reply::Text(Ok(text))) => World {
                    pending: self.pending.insert(text@, pending_view(pending)),
                    ..self
                },
                _ => self,
            }
        }
    }

    /// What the services hold after a handler got a reply.
    pub open spec fn left_by(self, need: NeedView, reply: Reply) -> World {
        match need {
            NeedView::Query(query) => self.after(query, reply),
            NeedView::Task(_) => self,
        }
    }

    /// Whether a reply is a true one: what a service tells, or what carrying out
    /// a task gives.
    pub open spec fn true_reply(self, need: NeedView, reply: Reply) -> bool {
        match need {
            NeedView::Query(query) => self.tells(query, reply),
            NeedView::Task(task) => answered(task, reply),
        }
    }
}

impl World {
    /// Whether a reply comes from services that do not fail. A password is
    /// checked and a list is read with whatever comes of it; any other task
    /// succeeds.
    pub open spec fn smooth_reply(self, need: NeedView, reply: Reply) -> bool {
        match need {
            NeedView::Query(query) => self.smooth(query, reply),
            NeedView::Task(TaskView::Verify { .. }) => true,
            NeedView::Task(TaskView::ReadList(_)) => true,
            NeedView::Task(_) => !is_error(reply),
        }
    }
}

/// Where a request stands, and what the services hold.
pub struct Standing<S, A> {
    pub outcome: Outcome<S, A>,
    pub world: World,
}

/// Where a handler and the services stand after some replies.
pub open spec fn served<H: Handler>(
    from: Standing<H, <H::Answer as View>::V>,
    replies: Seq<Reply>,
) -> Standing<H, <H::Answer as View>::V>
    decreases replies.len(),
{
    if replies.len() == 0 {
        from
    } else {
        match from.outcome {
            Outcome::Ask(h) => served(
                Standing {
                    outcome: h.next(replies[0]),
                    world: from.world.left_by(h.asks(), replies[0]),
                },
                replies.drop_first(),
            ),
            _ => from,
        }
    }
}

/// Whether every reply is a good one when the handler gets it.
pub open spec fn guided<H: Handler>(
    from: Standing<H, <H::Answer as View>::V>,
    replies: Seq<Reply>,
    good: spec_fn(World, NeedView, Reply) -> bool,
) -> bool
    decreases replies.len(),
{
    replies.len() > 0 ==> match from.outcome {
        Outcome::Ask(h) => good(from.world, h.asks(), replies[0]) && guided(
            Standing {
                outcome: h.next(replies[0]),
                world: from.world.left_by(h.asks(), replies[0]),
            },
            replies.drop_first(),
            good,
        ),
        _ => false,
    }
}

/// Replies that are true.
pub open spec fn truth() -> spec_fn(World, NeedView, Reply) -> bool {
    |world: World, need: NeedView, reply: Reply| world.true_reply(need, reply)
}

/// Replies that are true, from services that do not fail.
pub open spec fn luck() -> spec_fn(World, NeedView, Reply) -> bool {
    |world: World, need: NeedView, reply: Reply|
        world.true_reply(need, reply) && world.smooth_reply(need, reply)
}

/// Whether every reply is a true one when the handler gets it.
pub open spec fn truthful<H: Handler>(
    from: Standing<H, <H::Answer as View>::V>,
    replies: Seq<Reply>,
) -> bool {
    guided(from, replies, truth())
}

/// Whether every reply is a true one when the handler gets it, and no service
/// fails.
pub open spec fn lucky<H: Handler>(
    from: Standing<H, <H::Answer as View>::V>,
    replies: Seq<Reply>,
) -> bool {
    guided(from, replies, luck())
}

/// A handler at its start, and what the services hold.
pub open spec fn begun<H: Handler>(handler: H, world: World) -> Standing<
    H,
    <H::Answer as View>::V,
> {
    Standing { outcome: Outcome::Ask(handler), world }
}

/// What holds at the start and is kept by every good reply holds throughout.
pub proof fn kept_throughout<H: Handler>(
    from: Standing<H, <H::Answer as View>::V>,
    replies: Seq<Reply>,
    good: spec_fn(World, NeedView, Reply) -> bool,
    kept: spec_fn(Standing<H, <H::Answer as View>::V>) -> bool,
)
    requires
        guided(from, replies, good),
        kept(from),
        forall|h: H, world: World, reply: Reply|
            kept(begun(h, world)) && #[trigger] good(world, h.asks(), reply) ==> kept(
                Standing { outcome: h.next(reply), world: world.left_by(h.asks(), reply) },
            ),
    ensures
        kept(served(from, replies)),
    decreases replies.len(),
{
    reveal_with_fuel(served, 2);
    reveal_with_fuel(guided, 2);
    if replies.len() > 0 {
        match from.outcome {
            Outcome::Ask(h) => {
                assert(begun(h, from.world) == from);
                kept_throughout(
                    Standing {
                        outcome: h.next(replies[0]),
                        world: from.world.left_by(h.asks(), replies[0]),
                    },
                    replies.drop_first(),
                    good,
                    kept,
                );
            },
            _ => {},
        }
    }
}

/// Replies that are true and come from services that do not fail are true.
pub proof fn lucky_is_truthful<H: Handler>(
    from: Standing<H, <H::Answer as View>::V>,
    replies: Seq<Reply>,
)
    requires
        lucky(from, replies),
    ensures
        truthful(from, replies),
    decreases replies.len(),
{
    reveal_with_fuel(guided, 2);
    if replies.len() > 0 {
        match from.outcome {
            Outcome::Ask(h) => {
                lucky_is_truthful(
                    Standing {
                        outcome: h.next(replies[0]),
                        world: from.world.left_by(h.asks(), replies[0]),
                    },
                    replies.drop_first(),
                );
            },
            _ => {},
        }
    }
}

} // verus!
