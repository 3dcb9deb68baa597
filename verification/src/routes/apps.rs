//! Applications: who may sign in to one, and how one is described and stored.

use crate::error::{Status, at, fail, failure, failure_is_reported, refusal_is_reported};
use crate::models::{
    APIClaims, AccessibleApp, App, AppChanges, AppListing, AppResponse, Claims,
    CreateOrUpdateAppRequest, Created, CreatedView, GroupMemberships, MessageResponse, NewApp,
    NewAppView,
};
use crate::protocol::{Handler, Need, NeedView, Outcome, Progress, Query, QueryView, Reply};
use crate::text::{
    contains_text, copy_maybe, copy_texts, decimal, integer_text, integers_among, integers_in,
    maybe_text, text_or_empty, text_or_none, texts,
};
use vstd::prelude::*;

verus! {

/// The groups of a user as far as they are known; where they are not, the user
/// counts as a member of none.
pub open spec fn known(user_groups: Option<Vec<String>>) -> Seq<Seq<char>> {
    match user_groups {
        Some(groups) => texts(groups@),
        None => Seq::empty(),
    }
}

/// A list of the groups of a user as far as they are known.
pub fn known_groups(user_groups: &Option<Vec<String>>) -> (r: Vec<String>)
    ensures
        texts(r@) == known(*user_groups),
{
    match user_groups {
        Some(groups) => copy_texts(groups),
        None => {
            let r: Vec<String> = Vec::new();
            assert(texts(r@) =~= Seq::<Seq<char>>::empty());
            r
        },
    }
}

/// The question whether a user may sign in to an application, on its way.
pub struct AppAccess {
    pub app_id: String,
    pub user_groups: Option<Vec<String>>,
    pub stage: AppAccessStage,
}

/// How far [`AppAccess`] has come: what it waits for.
pub enum AppAccessStage {
    FindApp,
    MatchGroups,
}

/// Where [`AppAccess`] stands after a reply.
pub enum AccessProgress {
    Ask(AppAccess),
    Known { access: AppAccess, allowed: bool },
    Failed { access: AppAccess, cause: String },
}

/// Starts the question whether a user may sign in to an application. An
/// application that does not exist or is disabled is open to nobody; one without
/// a group is open to everybody; any other is open to the members of its group,
/// which the groups of the user name by identifier or by id.
pub fn user_has_access_to_app(app_id: String, user_groups: Option<Vec<String>>) -> (r: AppAccess)
    ensures
        r == (AppAccess { app_id, user_groups, stage: AppAccessStage::FindApp }),
{
    AppAccess { app_id, user_groups, stage: AppAccessStage::FindApp }
}

impl AppAccess {
    /// What is asked of the database.
    pub open spec fn asks(&self) -> QueryView {
        match self.stage {
            AppAccessStage::FindApp => QueryView::EnabledApp(self.app_id@),
            AppAccessStage::MatchGroups => QueryView::AppOfGroups {
                client_id: self.app_id@,
                identifiers: known(self.user_groups),
                ids: integers_among(known(self.user_groups)),
            },
        }
    }

    /// Where a reply takes the question.
    pub open spec fn next(self, reply: Reply) -> AccessProgress {
        match (self.stage, reply) {
            (AppAccessStage::FindApp, Reply::App(Ok(app))) => if app.group_id is None {
                AccessProgress::Known { access: self, allowed: true }
            } else {
                AccessProgress::Ask(AppAccess { stage: AppAccessStage::MatchGroups, ..self })
            },
            (AppAccessStage::FindApp, Reply::App(Err(_))) => AccessProgress::Known {
                access: self,
                allowed: false,
            },
            (AppAccessStage::MatchGroups, Reply::MaybeId(Ok(id))) => AccessProgress::Known {
                access: self,
                allowed: id is Some,
            },
            (AppAccessStage::MatchGroups, Reply::MaybeId(Err(cause))) => AccessProgress::Failed {
                access: self,
                cause,
            },
            _ => AccessProgress::Ask(self),
        }
    }

    /// A bound on how many replies are still needed.
    pub open spec fn rank(&self) -> nat {
        match self.stage {
            AppAccessStage::FindApp => 2,
            AppAccessStage::MatchGroups => 1,
        }
    }

    /// Tells what is asked of the database.
    pub fn need(&self) -> (r: Query)
        ensures
            r@ == self.asks(),
    {
        match &self.stage {
            AppAccessStage::FindApp => Query::EnabledApp(self.app_id.clone()),
            AppAccessStage::MatchGroups => {
                let identifiers = known_groups(&self.user_groups);
                let ids = integers_in(&identifiers);
                Query::AppOfGroups { client_id: self.app_id.clone(), identifiers, ids }
            },
        }
    }

    /// Takes a reply.
    pub fn resume(self, reply: Reply) -> (r: AccessProgress)
        ensures
            r == self.next(reply),
    {
        match (self.stage, reply) {
            (AppAccessStage::FindApp, Reply::App(Ok(app))) => {
                let access = AppAccess {
                    app_id: self.app_id,
                    user_groups: self.user_groups,
                    stage: AppAccessStage::FindApp,
                };
                match app.group_id {
                    None => AccessProgress::Known { access, allowed: true },
                    Some(_) => AccessProgress::Ask(
                        AppAccess {
                            app_id: access.app_id,
                            user_groups: access.user_groups,
                            stage: AppAccessStage::MatchGroups,
                        },
                    ),
                }
            },
            (AppAccessStage::FindApp, Reply::App(Err(_))) => AccessProgress::Known {
                access: AppAccess {
                    app_id: self.app_id,
                    user_groups: self.user_groups,
                    stage: AppAccessStage::FindApp,
                },
                allowed: false,
            },
            (AppAccessStage::MatchGroups, Reply::MaybeId(Ok(id))) => AccessProgress::Known {
                access: AppAccess {
                    app_id: self.app_id,
                    user_groups: self.user_groups,
                    stage: AppAccessStage::MatchGroups,
                },
                allowed: id.is_some(),
            },
            (AppAccessStage::MatchGroups, Reply::MaybeId(Err(cause))) => AccessProgress::Failed {
                access: AppAccess {
                    app_id: self.app_id,
                    user_groups: self.user_groups,
                    stage: AppAccessStage::MatchGroups,
                },
                cause,
            },
            (stage, _) => AccessProgress::Ask(
                AppAccess { app_id: self.app_id, user_groups: self.user_groups, stage },
            ),
        }
    }
}

/// A question for an application on its way.
pub struct GetApp {
    pub client_id: String,
    pub stage: GetAppStage,
}

/// How far [`GetApp`] has come: what it waits for.
pub enum GetAppStage {
    OpenDatabase,
    FindApp,
}

/// Starts a question for an application that is not disabled, by its client id.
pub fn get_app_by_client_id(client_id: String) -> (r: GetApp)
    ensures
        r == (GetApp { client_id, stage: GetAppStage::OpenDatabase }),
{
    GetApp { client_id, stage: GetAppStage::OpenDatabase }
}

impl Handler for GetApp {
    type Answer = AppResponse;

    open spec fn asks(&self) -> NeedView {
        match self.stage {
            GetAppStage::OpenDatabase => NeedView::Query(QueryView::OpenDatabase),
            GetAppStage::FindApp => NeedView::Query(QueryView::EnabledApp(self.client_id@)),
        }
    }

    open spec fn next(self, reply: Reply) -> Outcome<Self, AppResponse> {
        match (self.stage, reply) {
            (GetAppStage::OpenDatabase, Reply::Done(Ok(_))) => Outcome::Ask(
                GetApp { stage: GetAppStage::FindApp, ..self },
            ),
            (GetAppStage::OpenDatabase, Reply::Done(Err(e))) => Outcome::Done(
                Err(
                    failure(
                        Status::ServiceUnavailable,
                        at("get_app_by_client_id"@, "failed to get DB connection"@),
                        e@,
                    ),
                ),
            ),
            (GetAppStage::FindApp, Reply::App(Ok(app))) => Outcome::Done(
                Ok(
                    AppResponse {
                        name: app.name,
                        logo_url: app.logo_url,
                        app_url_dev: app.app_url_dev,
                        app_url_stage: app.app_url_stage,
                        app_url_prod: app.app_url_prod,
                        tnc_link: app.tnc_link,
                        allow_registration: app.allow_registration,
                        redirection_path: app.auth_redirection_path,
                    },
                ),
            ),
            (GetAppStage::FindApp, Reply::App(Err(e))) => Outcome::Done(
                Err(
                    failure(
                        Status::NotFound,
                        at(
                            "get_app_by_client_id"@,
                            "app with client_id '"@ + self.client_id@ + "' not found or disabled"@,
                        ),
                        e@,
                    ),
                ),
            ),
            _ => Outcome::Ask(self),
        }
    }

    open spec fn rank(&self) -> nat {
        match self.stage {
            GetAppStage::OpenDatabase => 2,
            GetAppStage::FindApp => 1,
        }
    }

    open spec fn speaks_as(name: Seq<char>) -> bool {
        name == "get_app_by_client_id"@
    }

    proof fn moves(self, reply: Reply) {
    }

    proof fn ignores(self, reply: Reply) {
    }

    proof fn reports(self, reply: Reply) {
        broadcast use refusal_is_reported, failure_is_reported;

        assert(Self::speaks_as("get_app_by_client_id"@));
    }

    fn need(&self) -> (r: Need) {
        match &self.stage {
            GetAppStage::OpenDatabase => Need::Query(Query::OpenDatabase),
            GetAppStage::FindApp => Need::Query(Query::EnabledApp(self.client_id.clone())),
        }
    }

    fn resume(self, reply: Reply) -> (r: Progress<Self, Self::Answer>) {
        match (self.stage, reply) {
            (GetAppStage::OpenDatabase, Reply::Done(Ok(_))) => Progress::Ask(
                GetApp { client_id: self.client_id, stage: GetAppStage::FindApp },
            ),
            (GetAppStage::OpenDatabase, Reply::Done(Err(e))) => Progress::Done(
                Err(
                    fail(
                        Status::ServiceUnavailable,
                        "get_app_by_client_id",
                        "failed to get DB connection",
                        e.as_str(),
                    ),
                ),
            ),
            (GetAppStage::FindApp, Reply::App(Ok(app))) => Progress::Done(
                Ok(
                    AppResponse {
                        name: app.name,
                        logo_url: app.logo_url,
                        app_url_dev: app.app_url_dev,
                        app_url_stage: app.app_url_stage,
                        app_url_prod: app.app_url_prod,
                        tnc_link: app.tnc_link,
                        allow_registration: app.allow_registration,
                        redirection_path: app.auth_redirection_path,
                    },
                ),
            ),
            (GetAppStage::FindApp, Reply::App(Err(e))) => Progress::Done(
                Err(
                    fail(
                        Status::NotFound,
                        "get_app_by_client_id",
                        "app with client_id '".to_owned()
                            .concat(self.client_id.as_str())
                            .concat("' not found or disabled").as_str(),
                        e.as_str(),
                    ),
                ),
            ),
            (stage, _) => Progress::Ask(GetApp { client_id: self.client_id, stage }),
        }
    }
}

/// Whether an application is open to a member of the given groups.
pub open spec fn accessible(listing: AppListing, groups: Seq<Seq<char>>) -> bool {
    match listing.group_identifier {
        None => true,
        Some(identifier) => groups.contains(identifier@),
    }
}

/// An application as told to a client.
pub open spec fn app_info(listing: AppListing) -> AccessibleApp {
    AccessibleApp {
        name: listing.name,
        logo_url: listing.logo_url,
        allow_registration: listing.allow_registration,
        tnc_link: listing.tnc_link,
        description: listing.description,
        app_url_dev: listing.app_url_dev,
        app_url_stage: listing.app_url_stage,
        app_url_prod: listing.app_url_prod,
        redirection_path: listing.auth_redirection_path,
        has_web_interface: listing.web_interface,
    }
}

/// The applications that are open to a member of the given groups, in the order
/// of the store.
pub open spec fn accessible_apps(listings: Seq<AppListing>, groups: Seq<Seq<char>>) -> Seq<
    AccessibleApp,
> {
    listings.filter(|l: AppListing| accessible(l, groups)).map_values(|l: AppListing| app_info(l))
}

/// Lists the applications that are open to a member of the given groups.
pub fn list_accessible_apps(listings: &Vec<AppListing>, groups: &Vec<String>) -> (r: Vec<
    AccessibleApp,
>)
    ensures
        r@ == accessible_apps(listings@, texts(groups@)),
{
    let ghost keep = |l: AppListing| accessible(l, texts(groups@));
    let ghost tell = |l: AppListing| app_info(l);
    let mut r: Vec<AccessibleApp> = Vec::new();
    let mut i: usize = 0;
    assert(listings@.take(0) =~= Seq::<AppListing>::empty());
    proof {
        reveal(Seq::filter);
    }
    assert(r@ =~= listings@.take(0).filter(keep).map_values(tell));
    while i < listings.len()
        invariant
            i <= listings.len(),
            keep == (|l: AppListing| accessible(l, texts(groups@))),
            tell == (|l: AppListing| app_info(l)),
            r@ == listings@.take(i as int).filter(keep).map_values(tell),
        decreases listings.len() - i,
    {
        let l = &listings[i];
        let ghost before = r@;
        proof {
            reveal(Seq::filter);
            assert(listings@.take(i + 1).drop_last() =~= listings@.take(i as int));
        }
        let open = match &l.group_identifier {
            None => true,
            Some(identifier) => contains_text(groups, identifier.as_str()),
        };
        if open {
            r.push(
                AccessibleApp {
                    name: l.name.clone(),
                    logo_url: copy_maybe(&l.logo_url),
                    allow_registration: l.allow_registration,
                    tnc_link: copy_maybe(&l.tnc_link),
                    description: copy_maybe(&l.description),
                    app_url_dev: copy_maybe(&l.app_url_dev),
                    app_url_stage: copy_maybe(&l.app_url_stage),
                    app_url_prod: copy_maybe(&l.app_url_prod),
                    redirection_path: copy_maybe(&l.auth_redirection_path),
                    has_web_interface: l.web_interface,
                },
            );
        }
        assert(r@ =~= listings@.take(i + 1).filter(keep).map_values(tell));
        i = i + 1;
    }
    assert(listings@.take(i as int) =~= listings@);
    r
}

/// A question for the applications that are open to a user on its way.
pub struct GetAccessibleApps {
    pub claims: Claims,
    pub groups: GroupMemberships,
    pub stage: GetAccessibleAppsStage,
}

/// How far [`GetAccessibleApps`] has come: what it waits for.
pub enum GetAccessibleAppsStage {
    OpenDatabase,
    List,
}

/// Starts a question for the applications that are open to the holder of a token:
/// those without a group and those of their groups.
pub fn get_accessible_apps(claims: Claims, groups: GroupMemberships) -> (r: GetAccessibleApps)
    ensures
        r == (GetAccessibleApps { claims, groups, stage: GetAccessibleAppsStage::OpenDatabase }),
{
    GetAccessibleApps { claims, groups, stage: GetAccessibleAppsStage::OpenDatabase }
}

impl Handler for GetAccessibleApps {
    type Answer = Vec<AccessibleApp>;

    open spec fn asks(&self) -> NeedView {
        match self.stage {
            GetAccessibleAppsStage::OpenDatabase => NeedView::Query(QueryView::OpenDatabase),
            GetAccessibleAppsStage::List => NeedView::Query(QueryView::AppListings),
        }
    }

    open spec fn next(self, reply: Reply) -> Outcome<Self, Seq<AccessibleApp>> {
        match (self.stage, reply) {
            (GetAccessibleAppsStage::OpenDatabase, Reply::Done(Ok(_))) => Outcome::Ask(
                GetAccessibleApps { stage: GetAccessibleAppsStage::List, ..self },
            ),
            (GetAccessibleAppsStage::OpenDatabase, Reply::Done(Err(e))) => Outcome::Done(
                Err(
                    failure(
                        Status::ServiceUnavailable,
                        at("get_accessible_apps"@, "failed to get DB connection"@),
                        e@,
                    ),
                ),
            ),
            (GetAccessibleAppsStage::List, Reply::Listings(Ok(listings))) => Outcome::Done(
                Ok(accessible_apps(listings@, texts(self.groups.0@))),
            ),
            (GetAccessibleAppsStage::List, Reply::Listings(Err(e))) => Outcome::Done(
                Err(
                    failure(
                        Status::InternalServerError,
                        at("get_accessible_apps"@, "loading apps with group info"@),
                        e@,
                    ),
                ),
            ),
            _ => Outcome::Ask(self),
        }
    }

    open spec fn rank(&self) -> nat {
        match self.stage {
            GetAccessibleAppsStage::OpenDatabase => 2,
            GetAccessibleAppsStage::List => 1,
        }
    }

    open spec fn speaks_as(name: Seq<char>) -> bool {
        name == "get_accessible_apps"@
    }

    proof fn moves(self, reply: Reply) {
    }

    proof fn ignores(self, reply: Reply) {
    }

    proof fn reports(self, reply: Reply) {
        broadcast use refusal_is_reported, failure_is_reported;

        assert(Self::speaks_as("get_accessible_apps"@));
    }

    fn need(&self) -> (r: Need) {
        match &self.stage {
            GetAccessibleAppsStage::OpenDatabase => Need::Query(Query::OpenDatabase),
            GetAccessibleAppsStage::List => Need::Query(Query::AppListings),
        }
    }

    fn resume(self, reply: Reply) -> (r: Progress<Self, Self::Answer>) {
        match (self.stage, reply) {
            (GetAccessibleAppsStage::OpenDatabase, Reply::Done(Ok(_))) => Progress::Ask(
                GetAccessibleApps {
                    claims: self.claims,
                    groups: self.groups,
                    stage: GetAccessibleAppsStage::List,
                },
            ),
            (GetAccessibleAppsStage::OpenDatabase, Reply::Done(Err(e))) => Progress::Done(
                Err(
                    fail(
                        Status::ServiceUnavailable,
                        "get_accessible_apps",
                        "failed to get DB connection",
                        e.as_str(),
                    ),
                ),
            ),
            (GetAccessibleAppsStage::List, Reply::Listings(Ok(listings))) => Progress::Done(
                Ok(list_accessible_apps(&listings, &self.groups.0)),
            ),
            (GetAccessibleAppsStage::List, Reply::Listings(Err(e))) => Progress::Done(
                Err(
                    fail(
                        Status::InternalServerError,
                        "get_accessible_apps",
                        "loading apps with group info",
                        e.as_str(),
                    ),
                ),
            ),
            (stage, _) => Progress::Ask(
                GetAccessibleApps { claims: self.claims, groups: self.groups, stage },
            ),
        }
    }
}

/// What a request changes in an application: the fields that it names.
pub open spec fn changes_of(request: CreateOrUpdateAppRequest) -> AppChanges {
    AppChanges {
        name: request.name,
        logo_url: request.logo_url,
        disabled: request.disabled,
        app_url_dev: request.app_url_dev,
        app_url_stage: request.app_url_stage,
        app_url_prod: request.app_url_prod,
        group_id: request.group_id,
        tnc_link: request.tnc_link,
        allow_registration: request.allow_registration,
        description: request.description,
        auth_redirection_path: request.auth_redirection_path,
        web_interface: request.web_interface,
    }
}

/// Lists what a request changes in an application.
pub fn changes_in(request: &CreateOrUpdateAppRequest) -> (r: AppChanges)
    ensures
        r == changes_of(*request),
{
    AppChanges {
        name: copy_maybe(&request.name),
        logo_url: copy_maybe(&request.logo_url),
        disabled: request.disabled,
        app_url_dev: copy_maybe(&request.app_url_dev),
        app_url_stage: copy_maybe(&request.app_url_stage),
        app_url_prod: copy_maybe(&request.app_url_prod),
        group_id: request.group_id,
        tnc_link: copy_maybe(&request.tnc_link),
        allow_registration: request.allow_registration,
        description: copy_maybe(&request.description),
        auth_redirection_path: copy_maybe(&request.auth_redirection_path),
        web_interface: request.web_interface,
    }
}

/// The application that a request describes. A missing name is empty, and a
/// missing flag is not set.
pub open spec fn app_of(request: CreateOrUpdateAppRequest) -> NewAppView {
    NewAppView {
        client_id: request.client_id@,
        name: text_or_empty(request.name),
        logo_url: maybe_text(request.logo_url),
        disabled: request.disabled == Some(true),
        app_url_dev: maybe_text(request.app_url_dev),
        app_url_stage: maybe_text(request.app_url_stage),
        app_url_prod: maybe_text(request.app_url_prod),
        group_id: request.group_id,
        tnc_link: maybe_text(request.tnc_link),
        allow_registration: request.allow_registration == Some(true),
        description: maybe_text(request.description),
        auth_redirection_path: maybe_text(request.auth_redirection_path),
        web_interface: request.web_interface == Some(true),
    }
}

/// Makes up the application that a request describes.
pub fn app_in(request: &CreateOrUpdateAppRequest) -> (r: NewApp)
    ensures
        r@ == app_of(*request),
{
    NewApp {
        client_id: request.client_id.clone(),
        name: text_or_none(&request.name),
        logo_url: copy_maybe(&request.logo_url),
        disabled: request.disabled.unwrap_or(false),
        app_url_dev: copy_maybe(&request.app_url_dev),
        app_url_stage: copy_maybe(&request.app_url_stage),
        app_url_prod: copy_maybe(&request.app_url_prod),
        group_id: request.group_id,
        tnc_link: copy_maybe(&request.tnc_link),
        allow_registration: request.allow_registration.unwrap_or(false),
        description: copy_maybe(&request.description),
        auth_redirection_path: copy_maybe(&request.auth_redirection_path),
        web_interface: request.web_interface.unwrap_or(false),
    }
}

/// The storing of an application on its way.
pub struct CreateOrUpdateApp {
    pub request: CreateOrUpdateAppRequest,
    pub stage: CreateOrUpdateAppStage,
}

/// How far [`CreateOrUpdateApp`] has come: what it waits for.
pub enum CreateOrUpdateAppStage {
    OpenDatabase,
    FindApp,
    Update { id: i64 },
    Insert,
}

/// Starts the storing of an application: the one with the client id gets the
/// fields that the request names; if there is none, a new one is stored.
pub fn create_or_update_app(
    request: CreateOrUpdateAppRequest,
    _claims: APIClaims,
) -> (r: CreateOrUpdateApp)
    ensures
        r == (CreateOrUpdateApp { request, stage: CreateOrUpdateAppStage::OpenDatabase }),
{
    CreateOrUpdateApp { request, stage: CreateOrUpdateAppStage::OpenDatabase }
}

impl Handler for CreateOrUpdateApp {
    type Answer = Created;

    open spec fn asks(&self) -> NeedView {
        match self.stage {
            CreateOrUpdateAppStage::OpenDatabase => NeedView::Query(QueryView::OpenDatabase),
            CreateOrUpdateAppStage::FindApp => NeedView::Query(
                QueryView::MaybeApp(self.request.client_id@),
            ),
            CreateOrUpdateAppStage::Update { id } => NeedView::Query(
                QueryView::UpdateApp { id, changes: changes_of(self.request) },
            ),
            CreateOrUpdateAppStage::Insert => NeedView::Query(
                QueryView::InsertApp(app_of(self.request)),
            ),
        }
    }

    open spec fn next(self, reply: Reply) -> Outcome<Self, CreatedView> {
        match (self.stage, reply) {
            (CreateOrUpdateAppStage::OpenDatabase, Reply::Done(Ok(_))) => Outcome::Ask(
                CreateOrUpdateApp { stage: CreateOrUpdateAppStage::FindApp, ..self },
            ),
            (CreateOrUpdateAppStage::OpenDatabase, Reply::Done(Err(e))) => Outcome::Done(
                Err(
                    failure(
                        Status::ServiceUnavailable,
                        at("create_or_update_app"@, "failed to get DB connection"@),
                        e@,
                    ),
                ),
            ),
            (CreateOrUpdateAppStage::FindApp, Reply::MaybeApp(Ok(Some(app)))) => Outcome::Ask(
                CreateOrUpdateApp { stage: CreateOrUpdateAppStage::Update { id: app.id }, ..self },
            ),
            (CreateOrUpdateAppStage::FindApp, Reply::MaybeApp(Ok(None))) => Outcome::Ask(
                CreateOrUpdateApp { stage: CreateOrUpdateAppStage::Insert, ..self },
            ),
            (CreateOrUpdateAppStage::FindApp, Reply::MaybeApp(Err(e))) => Outcome::Done(
                Err(
                    failure(
                        Status::InternalServerError,
                        at(
                            "create_or_update_app"@,
                            "looking up app with client_id '"@ + self.request.client_id@ + "'"@,
                        ),
                        e@,
                    ),
                ),
            ),
            (CreateOrUpdateAppStage::Update { .. }, Reply::Rows(Ok(_))) => Outcome::Done(
                Ok(CreatedView { location: "/app"@, message: "App updated successfully"@ }),
            ),
            (CreateOrUpdateAppStage::Update { id }, Reply::Rows(Err(e))) => Outcome::Done(
                Err(
                    failure(
                        Status::InternalServerError,
                        at("create_or_update_app"@, "updating app id="@ + decimal(id as int)),
                        e@,
                    ),
                ),
            ),
            (CreateOrUpdateAppStage::Insert, Reply::Rows(Ok(_))) => Outcome::Done(
                Ok(CreatedView { location: "/app"@, message: "App created successfully"@ }),
            ),
            (CreateOrUpdateAppStage::Insert, Reply::Rows(Err(e))) => Outcome::Done(
                Err(
                    failure(
                        Status::InternalServerError,
                        at(
                            "create_or_update_app"@,
                            "creating app with client_id '"@ + self.request.client_id@ + "'"@,
                        ),
                        e@,
                    ),
                ),
            ),
            _ => Outcome::Ask(self),
        }
    }

    open spec fn rank(&self) -> nat {
        match self.stage {
            CreateOrUpdateAppStage::OpenDatabase => 4,
            CreateOrUpdateAppStage::FindApp => 3,
            CreateOrUpdateAppStage::Update { .. } => 2,
            CreateOrUpdateAppStage::Insert => 1,
        }
    }

    open spec fn speaks_as(name: Seq<char>) -> bool {
        name == "create_or_update_app"@
    }

    proof fn moves(self, reply: Reply) {
    }

    proof fn ignores(self, reply: Reply) {
    }

    proof fn reports(self, reply: Reply) {
        broadcast use refusal_is_reported, failure_is_reported;

        assert(Self::speaks_as("create_or_update_app"@));
    }

    fn need(&self) -> (r: Need) {
        match &self.stage {
            CreateOrUpdateAppStage::OpenDatabase => Need::Query(Query::OpenDatabase),
            CreateOrUpdateAppStage::FindApp => Need::Query(
                Query::MaybeApp(self.request.client_id.clone()),
            ),
            CreateOrUpdateAppStage::Update { id } => Need::Query(
                Query::UpdateApp { id: *id, changes: changes_in(&self.request) },
            ),
            CreateOrUpdateAppStage::Insert => Need::Query(Query::InsertApp(app_in(&self.request))),
        }
    }

    fn resume(self, reply: Reply) -> (r: Progress<Self, Self::Answer>) {
        match (self.stage, reply) {
            (CreateOrUpdateAppStage::OpenDatabase, Reply::Done(Ok(_))) => Progress::Ask(
                CreateOrUpdateApp { request: self.request, stage: CreateOrUpdateAppStage::FindApp },
            ),
            (CreateOrUpdateAppStage::OpenDatabase, Reply::Done(Err(e))) => Progress::Done(
                Err(
                    fail(
                        Status::ServiceUnavailable,
                        "create_or_update_app",
                        "failed to get DB connection",
                        e.as_str(),
                    ),
                ),
            ),
            (CreateOrUpdateAppStage::FindApp, Reply::MaybeApp(Ok(Some(app)))) => Progress::Ask(
                CreateOrUpdateApp {
                    request: self.request,
                    stage: CreateOrUpdateAppStage::Update { id: app.id },
                },
            ),
            (CreateOrUpdateAppStage::FindApp, Reply::MaybeApp(Ok(None))) => Progress::Ask(
                CreateOrUpdateApp { request: self.request, stage: CreateOrUpdateAppStage::Insert },
            ),
            (CreateOrUpdateAppStage::FindApp, Reply::MaybeApp(Err(e))) => Progress::Done(
                Err(
                    fail(
                        Status::InternalServerError,
                        "create_or_update_app",
                        "looking up app with client_id '".to_owned()
                            .concat(self.request.client_id.as_str())
                            .concat("'").as_str(),
                        e.as_str(),
                    ),
                ),
            ),
            (CreateOrUpdateAppStage::Update { .. }, Reply::Rows(Ok(_))) => Progress::Done(
                Ok(
                    Created {
                        location: "/app".to_owned(),
                        body: MessageResponse { message: "App updated successfully".to_owned() },
                    },
                ),
            ),
            (CreateOrUpdateAppStage::Update { id }, Reply::Rows(Err(e))) => Progress::Done(
                Err(
                    fail(
                        Status::InternalServerError,
                        "create_or_update_app",
                        "updating app id=".to_owned().concat(integer_text(id).as_str()).as_str(),
                        e.as_str(),
                    ),
                ),
            ),
            (CreateOrUpdateAppStage::Insert, Reply::Rows(Ok(_))) => Progress::Done(
                Ok(
                    Created {
                        location: "/app".to_owned(),
                        body: MessageResponse { message: "App created successfully".to_owned() },
                    },
                ),
            ),
            (CreateOrUpdateAppStage::Insert, Reply::Rows(Err(e))) => Progress::Done(
                Err(
                    fail(
                        Status::InternalServerError,
                        "create_or_update_app",
                        "creating app with client_id '".to_owned()
                            .concat(self.request.client_id.as_str())
                            .concat("'").as_str(),
                        e.as_str(),
                    ),
                ),
            ),
            (stage, _) => Progress::Ask(CreateOrUpdateApp { request: self.request, stage }),
        }
    }
}

} // verus!
