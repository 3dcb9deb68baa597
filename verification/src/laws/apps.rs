//! Laws of applications.

use crate::models::{
    APIClaims, AccessibleApp, AppListing, AppResponse, CreateOrUpdateAppRequest, CreatedView,
    NewAppView,
};
use crate::protocol::{Handler, Outcome, Reply};
use crate::routes::apps::{
    accessible, accessible_apps, app_info, app_of, changes_of, create_or_update_app,
    get_app_by_client_id, known, list_accessible_apps, user_has_access_to_app, AccessProgress,
    AppAccess, AppAccessStage, CreateOrUpdateApp, CreateOrUpdateAppStage, GetAccessibleApps,
    GetAccessibleAppsStage, GetApp, GetAppStage,
};
use crate::text::{i64_value, integers_among, maybe_text, texts};
use crate::world::{
    app_row, apps_changed, begun, changed, group_ids_are_unique, kept_throughout, luck, lucky,
    lucky_is_truthful, new_app_id, served, truth, truthful, unused_app_id, AppRow, GroupRow,
    Standing, World,
};
use vstd::prelude::*;

verus! {

/// What the storing of an application has left and answered at the end: the one
/// with the client id has the fields that the request names, or a new one was
/// stored.
pub open spec fn app_stored(
    request: CreateOrUpdateAppRequest,
    before: World,
    after: World,
    answer: CreatedView,
) -> bool {
    &&& answer.location == "/app"@
    &&& if before.has_app(request.client_id@) {
        &&& answer.message == "App updated successfully"@
        &&& exists|app: AppRow| #[trigger]
            before.apps.contains(app) && app.app.client_id == request.client_id@ && after == (
            World { apps: apps_changed(before.apps, app.id, changes_of(request)), ..before })
    } else {
        &&& answer.message == "App created successfully"@
        &&& after == World {
            apps: before.apps.insert(
                AppRow { id: new_app_id(before.apps), app: app_of(request) },
            ),
            ..before
        }
    }
}

/// How the storing of an application stands on its way.
spec fn storing(
    request: CreateOrUpdateApp,
    before: World,
    s: Standing<CreateOrUpdateApp, CreatedView>,
) -> bool {
    let r = request.request;
    match s.outcome {
        Outcome::Ask(h) => {
            &&& s.world == before
            &&& h.request == r
            &&& match h.stage {
                CreateOrUpdateAppStage::Update { id } => exists|app: AppRow| #[trigger]
                    before.apps.contains(app) && app.app.client_id == r.client_id@ && app.id == id,
                CreateOrUpdateAppStage::Insert => !before.has_app(r.client_id@),
                _ => true,
            }
        },
        Outcome::Done(Ok(answer)) => app_stored(r, before, s.world, answer),
        _ => true,
    }
}

/// An application is updated if its client id is taken, and created otherwise. An
/// update overwrites the fields that the request names, and nothing else changes.
pub proof fn app_is_stored(request: CreateOrUpdateApp, world: World, replies: Seq<Reply>)
    requires
        request.stage is OpenDatabase,
        truthful(begun(request, world), replies),
    ensures
        served(begun(request, world), replies).outcome matches Outcome::Done(Ok(answer))
            ==> app_stored(
            request.request,
            world,
            served(begun(request, world), replies).world,
            answer,
        ),
{
    assert forall|h: CreateOrUpdateApp, now: World, reply: Reply|
        storing(request, world, begun(h, now)) && #[trigger] truth()(
            now,
            h.asks(),
            reply,
        ) implies storing(
        request,
        world,
        Standing { outcome: h.next(reply), world: now.left_by(h.asks(), reply) },
    ) by {
        match (h.stage, reply) {
            (CreateOrUpdateAppStage::FindApp, Reply::MaybeApp(Ok(Some(app)))) => {
                assert(world.apps.contains(app_row(app)));
            },
            _ => {},
        }
    }
    kept_throughout(
        begun(request, world),
        replies,
        truth(),
        |s: Standing<CreateOrUpdateApp, CreatedView>| storing(request, world, s),
    );
}

/// A field that a request does not name stays as it was.
pub proof fn unnamed_fields_stay(app: NewAppView, request: CreateOrUpdateAppRequest)
    ensures
        changed(app, changes_of(request)).client_id == app.client_id,
        request.name is None ==> changed(app, changes_of(request)).name == app.name,
        request.logo_url is None ==> changed(app, changes_of(request)).logo_url == app.logo_url,
        request.disabled is None ==> changed(app, changes_of(request)).disabled == app.disabled,
        request.app_url_dev is None ==> changed(app, changes_of(request)).app_url_dev
            == app.app_url_dev,
        request.app_url_stage is None ==> changed(app, changes_of(request)).app_url_stage
            == app.app_url_stage,
        request.app_url_prod is None ==> changed(app, changes_of(request)).app_url_prod
            == app.app_url_prod,
        request.group_id is None ==> changed(app, changes_of(request)).group_id == app.group_id,
        request.tnc_link is None ==> changed(app, changes_of(request)).tnc_link == app.tnc_link,
        request.allow_registration is None ==> changed(
            app,
            changes_of(request),
        ).allow_registration == app.allow_registration,
        request.description is None ==> changed(app, changes_of(request)).description
            == app.description,
        request.auth_redirection_path is None ==> changed(
            app,
            changes_of(request),
        ).auth_redirection_path == app.auth_redirection_path,
        request.web_interface is None ==> changed(app, changes_of(request)).web_interface
            == app.web_interface,
{
}

/// A request that is made again changes nothing, neither after an update nor
/// after a creation.
pub proof fn storing_again_changes_nothing(app: NewAppView, request: CreateOrUpdateAppRequest)
    ensures
        changed(changed(app, changes_of(request)), changes_of(request)) == changed(
            app,
            changes_of(request),
        ),
        changed(app_of(request), changes_of(request)) == app_of(request),
{
}

/// Whether at most one application has a client id.
pub open spec fn client_id_is_unique(world: World, client_id: Seq<char>) -> bool {
    forall|a: AppRow, b: AppRow| #[trigger]
        world.apps.contains(a) && #[trigger] world.apps.contains(b) && a.app.client_id == client_id
            && b.app.client_id == client_id ==> a == b
}

/// Whether a request names a field besides the client id.
pub open spec fn names_a_field(request: CreateOrUpdateAppRequest) -> bool {
    request.name is Some || request.logo_url is Some || request.disabled is Some
        || request.app_url_dev is Some || request.app_url_stage is Some || request.app_url_prod
        is Some || request.group_id is Some || request.tnc_link is Some
        || request.allow_registration is Some || request.description is Some
        || request.auth_redirection_path is Some || request.web_interface is Some
}

proof fn changing_again_changes_nothing(
    apps: Set<AppRow>,
    id: i64,
    request: CreateOrUpdateAppRequest,
)
    ensures
        apps_changed(apps_changed(apps, id, changes_of(request)), id, changes_of(request))
            == apps_changed(apps, id, changes_of(request)),
{
    let change = |a: AppRow|
        if a.id == id {
            AppRow { app: changed(a.app, changes_of(request)), ..a }
        } else {
            a
        };
    let once = apps_changed(apps, id, changes_of(request));
    let twice = apps_changed(once, id, changes_of(request));
    assert forall|a: AppRow| once.contains(a) implies change(a) == a by {
        let first = choose|first: AppRow| apps.contains(first) && a == change(first);
        assert(apps.contains(first) && a == change(first));
        storing_again_changes_nothing(first.app, request);
    }
    assert forall|a: AppRow| twice.contains(a) <==> once.contains(a) by {
        if once.contains(a) {
            assert(change(a) == a);
        }
        if twice.contains(a) {
            let first = choose|first: AppRow| once.contains(first) && a == change(first);
            assert(once.contains(first) && a == change(first));
            assert(change(first) == first);
        }
    }
    assert(twice =~= once);
}

proof fn second_storing_changes_nothing(
    request: CreateOrUpdateAppRequest,
    world: World,
    after: World,
    answer: CreatedView,
    again: World,
    second: CreatedView,
)
    requires
        client_id_is_unique(world, request.client_id@),
        exists|id: i64| unused_app_id(world.apps, id),
        app_stored(request, world, after, answer),
        app_stored(request, after, again, second),
    ensures
        second.message == "App updated successfully"@,
        again == after,
{
    let changes = changes_of(request);
    if world.has_app(request.client_id@) {
        let app = choose|app: AppRow| #[trigger]
            world.apps.contains(app) && app.app.client_id == request.client_id@ && after == (World {
                apps: apps_changed(world.apps, app.id, changes),
                ..world
            });
        let stored = AppRow { app: changed(app.app, changes), ..app };
        assert(after.apps.contains(stored));
        assert(after.has_app(request.client_id@));
        let found = choose|found: AppRow| #[trigger]
            after.apps.contains(found) && found.app.client_id == request.client_id@ && again == (
            World { apps: apps_changed(after.apps, found.id, changes), ..after });
        let change = |a: AppRow|
            if a.id == app.id {
                AppRow { app: changed(a.app, changes), ..a }
            } else {
                a
            };
        let first = choose|first: AppRow| world.apps.contains(first) && found == change(first);
        assert(world.apps.contains(first) && found == change(first));
        assert(first == app);
        changing_again_changes_nothing(world.apps, app.id, request);
    } else {
        let id = new_app_id(world.apps);
        let stored = AppRow { id, app: app_of(request) };
        assert(after.apps.contains(stored));
        assert(after.has_app(request.client_id@));
        let found = choose|found: AppRow| #[trigger]
            after.apps.contains(found) && found.app.client_id == request.client_id@ && again == (
            World { apps: apps_changed(after.apps, found.id, changes), ..after });
        assert(found == stored);
        storing_again_changes_nothing(stored.app, request);
        let change = |a: AppRow|
            if a.id == id {
                AppRow { app: changed(a.app, changes), ..a }
            } else {
                a
            };
        assert forall|a: AppRow| after.apps.contains(a) implies change(a) == a by {
            if a != stored {
                assert(world.apps.contains(a));
            }
        }
        assert forall|a: AppRow| again.apps.contains(a) <==> after.apps.contains(a) by {
            if after.apps.contains(a) {
                assert(change(a) == a);
            }
            if again.apps.contains(a) {
                let first = choose|first: AppRow| after.apps.contains(first) && a == change(first);
                assert(after.apps.contains(first) && a == change(first));
                assert(change(first) == first);
            }
        }
        assert(again.apps =~= after.apps);
    }
}

/// A request that is made again updates and changes nothing: once an application
/// was stored, the same request is answered as an update and leaves every table as
/// it is, unless a service fails.
pub proof fn same_request_changes_nothing(
    request: CreateOrUpdateApp,
    world: World,
    replies: Seq<Reply>,
    again: CreateOrUpdateApp,
    later: Seq<Reply>,
)
    requires
        request.stage is OpenDatabase,
        again == request,
        names_a_field(request.request),
        client_id_is_unique(world, request.request.client_id@),
        exists|id: i64| unused_app_id(world.apps, id),
        truthful(begun(request, world), replies),
        served(begun(request, world), replies).outcome matches Outcome::Done(Ok(_)),
        lucky(begun(again, served(begun(request, world), replies).world), later),
    ensures
        served(begun(again, served(begun(request, world), replies).world), later).outcome is Done
            ==> served(begun(again, served(begun(request, world), replies).world), later).world
            == served(begun(request, world), replies).world,
        match served(begun(again, served(begun(request, world), replies).world), later).outcome {
            Outcome::Ask(_) => true,
            Outcome::Done(Ok(answer)) => answer.message == "App updated successfully"@,
            Outcome::Done(Err(_)) => false,
        },
{
    let after = served(begun(request, world), replies).world;
    app_is_stored(request, world, replies);
    lucky_is_truthful(begun(again, after), later);
    app_is_stored(again, after, later);
    kept_throughout(
        begun(again, after),
        later,
        luck(),
        |s: Standing<CreateOrUpdateApp, CreatedView>| !(s.outcome matches Outcome::Done(Err(_))),
    );
    match (
        served(begun(request, world), replies).outcome,
        served(begun(again, after), later).outcome,
    ) {
        (Outcome::Done(Ok(answer)), Outcome::Done(Ok(second))) => {
            second_storing_changes_nothing(
                request.request,
                world,
                after,
                answer,
                served(begun(again, after), later).world,
                second,
            );
        },
        _ => {},
    }
}

/// The question whether an application is open is answered truly: yes only if it
/// is open to the groups. If no service fails, the answer is no only if no
/// application with the client id is enabled, or if none of them belongs to one of
/// the groups.
pub proof fn access_is_told(access: AppAccess, world: World, reply: Reply)
    requires
        world.tells(access.asks(), reply),
        access.stage is MatchGroups ==> world.has_enabled_app(access.app_id@),
    ensures
        match access.next(reply) {
            AccessProgress::Known { allowed, .. } => allowed ==> world.open_to(
                access.app_id@,
                known(access.user_groups),
            ),
            AccessProgress::Ask(next) => next.app_id == access.app_id && next.user_groups
                == access.user_groups && (next.stage is MatchGroups ==> world.has_enabled_app(
                access.app_id@,
            )),
            AccessProgress::Failed { .. } => true,
        },
        world.smooth(access.asks(), reply) ==> match access.next(reply) {
            AccessProgress::Known { allowed, .. } => !allowed ==> !world.has_enabled_app(
                access.app_id@,
            ) || forall|a: AppRow| #[trigger]
                world.apps.contains(a) && a.app.client_id == access.app_id@
                    ==> !world.app_of_groups(
                    a,
                    known(access.user_groups),
                    integers_among(known(access.user_groups)),
                ),
            AccessProgress::Ask(_) => true,
            AccessProgress::Failed { .. } => false,
        },
{
    match (access.stage, reply) {
        (AppAccessStage::FindApp, Reply::App(Ok(app))) => {
            assert(world.apps.contains(app_row(app)));
        },
        _ => {},
    }
}

/// An application that does not exist or is disabled is open to nobody.
pub proof fn disabled_app_is_open_to_nobody(world: World, client_id: Seq<char>)
    requires
        !world.has_enabled_app(client_id),
    ensures
        forall|groups: Seq<Seq<char>>| !#[trigger] world.open_to(client_id, groups),
{
}

/// An application that has no group and is not disabled is open to everybody.
pub proof fn app_without_group_is_open_to_everybody(world: World, app: AppRow)
    requires
        world.apps.contains(app),
        !app.app.disabled,
        app.app.group_id is None,
    ensures
        forall|groups: Seq<Seq<char>>| #[trigger] world.open_to(app.app.client_id, groups),
{
}

/// Whether an application is told to a client as it is stored.
pub open spec fn told_as(info: AccessibleApp, app: NewAppView) -> bool {
    &&& info.name@ == app.name
    &&& maybe_text(info.logo_url) == app.logo_url
    &&& info.allow_registration == app.allow_registration
    &&& maybe_text(info.tnc_link) == app.tnc_link
    &&& maybe_text(info.description) == app.description
    &&& maybe_text(info.app_url_dev) == app.app_url_dev
    &&& maybe_text(info.app_url_stage) == app.app_url_stage
    &&& maybe_text(info.app_url_prod) == app.app_url_prod
    &&& maybe_text(info.redirection_path) == app.auth_redirection_path
    &&& info.has_web_interface == app.web_interface
}

/// Whether an application has no group or one of some groups.
pub open spec fn within_reach(world: World, app: AppRow, groups: Seq<Seq<char>>) -> bool {
    ||| !world.app_has_group(app)
    ||| exists|identifier: Seq<char>| #[trigger]
        world.app_in(app, identifier) && groups.contains(identifier)
}

/// Whether what is told to a client is an application that has no group or one of
/// some groups.
pub open spec fn tells_app(world: World, groups: Seq<Seq<char>>, info: AccessibleApp) -> bool {
    exists|app: AppRow| #[trigger]
        world.apps.contains(app) && told_as(info, app.app) && within_reach(world, app, groups)
}

/// Whether an application is among those that are told to a client.
pub open spec fn is_told(list: Seq<AccessibleApp>, app: NewAppView) -> bool {
    exists|i: int| 0 <= i < list.len() && told_as(#[trigger] list[i], app)
}

/// Whether a list tells of exactly the applications that have no group or one of
/// some groups.
pub open spec fn tells_apps(
    world: World,
    groups: Seq<Seq<char>>,
    list: Seq<AccessibleApp>,
) -> bool {
    &&& forall|i: int| 0 <= i < list.len() ==> tells_app(world, groups, #[trigger] list[i])
    &&& forall|app: AppRow| #[trigger]
        world.apps.contains(app) && within_reach(world, app, groups) ==> is_told(list, app.app)
}

proof fn listings_tell_apps(world: World, groups: Seq<Seq<char>>, listings: Seq<AppListing>)
    requires
        world.has_listings(listings),
        group_ids_are_unique(world),
    ensures
        tells_apps(world, groups, accessible_apps(listings, groups)),
{
    let open = |l: AppListing| accessible(l, groups);
    let kept = listings.filter(open);
    let list = accessible_apps(listings, groups);
    assert forall|i: int| 0 <= i < list.len() implies tells_app(
        world,
        groups,
        #[trigger] list[i],
    ) by {
        let l = kept[i];
        assert(list[i] == app_info(l));
        listings.lemma_filter_contains_rev(open, l);
        assert(kept.contains(l));
        let j = choose|j: int| 0 <= j < listings.len() && listings[j] == l;
        let app = choose|app: AppRow| world.lists(listings[j], app);
        assert(world.lists(l, app));
        assert(open(l));
        match l.group_identifier {
            Some(identifier) => {
                assert(world.app_in(app, identifier@) && groups.contains(identifier@));
            },
            None => {},
        }
        assert(world.apps.contains(app) && told_as(list[i], app.app) && within_reach(
            world,
            app,
            groups,
        ));
    }
    assert forall|app: AppRow| #[trigger]
        world.apps.contains(app) && within_reach(world, app, groups) implies is_told(
        list,
        app.app,
    ) by {
        let j = choose|j: int|
            0 <= j < listings.len() && world.lists(#[trigger] listings[j], app);
        let l = listings[j];
        match l.group_identifier {
            Some(identifier) => {
                let named = choose|named: Seq<char>| #[trigger]
                    world.app_in(app, named) && groups.contains(named);
                assert(world.app_in(app, identifier@));
                assert(world.app_has_group(app));
                let g = choose|g: GroupRow| #[trigger]
                    world.groups.contains(g) && app.app.group_id == Some(g.id) && g.identifier
                        == named;
                let h = choose|h: GroupRow| #[trigger]
                    world.groups.contains(h) && app.app.group_id == Some(h.id) && h.identifier
                        == identifier@;
                assert(g == h);
            },
            None => {},
        }
        assert(open(l));
        assert(listings.contains(l));
        listings.lemma_filter_contains(open, j);
        assert(kept.contains(l));
        let i = choose|i: int| 0 <= i < kept.len() && kept[i] == l;
        assert(list[i] == app_info(l));
        assert(told_as(list[i], app.app));
    }
}

/// The applications that are told to a user are those that have no group or one of
/// their groups. Nothing changes.
pub proof fn accessible_apps_are_told(
    request: GetAccessibleApps,
    world: World,
    replies: Seq<Reply>,
)
    requires
        request.stage is OpenDatabase,
        group_ids_are_unique(world),
        truthful(begun(request, world), replies),
    ensures
        served(begun(request, world), replies).world == world,
        served(begun(request, world), replies).outcome matches Outcome::Done(Ok(list))
            ==> tells_apps(world, texts(request.groups.0@), list),
{
    assert forall|h: GetAccessibleApps, now: World, reply: Reply|
        telling_apps(request, world, begun(h, now)) && #[trigger] truth()(
            now,
            h.asks(),
            reply,
        ) implies telling_apps(
        request,
        world,
        Standing { outcome: h.next(reply), world: now.left_by(h.asks(), reply) },
    ) by {
        match (h.stage, reply) {
            (GetAccessibleAppsStage::List, Reply::Listings(Ok(listings))) => {
                listings_tell_apps(world, texts(request.groups.0@), listings@);
            },
            _ => {},
        }
    }
    kept_throughout(
        begun(request, world),
        replies,
        truth(),
        |s: Standing<GetAccessibleApps, Seq<AccessibleApp>>| telling_apps(request, world, s),
    );
}

/// How a question for the applications of a user stands on its way.
spec fn telling_apps(
    request: GetAccessibleApps,
    world: World,
    s: Standing<GetAccessibleApps, Seq<AccessibleApp>>,
) -> bool {
    s.world == world && match s.outcome {
        Outcome::Ask(h) => h.groups == request.groups,
        Outcome::Done(Ok(list)) => tells_apps(world, texts(request.groups.0@), list),
        _ => true,
    }
}

/// The groups that a user is taken to be in: those that are given, or none.
pub open spec fn groups_given(user_groups: Option<Vec<String>>) -> Seq<Seq<char>> {
    match user_groups {
        Some(groups) => groups@.map_values(|g: String| g@),
        None => Seq::empty(),
    }
}

/// A number is among the integers of a list if and only if one of its texts writes
/// it.
pub proof fn integers_are_those_written(list: Seq<Seq<char>>, id: i64)
    ensures
        integers_among(list).contains(id) <==> exists|i: int|
            0 <= i < list.len() && i64_value(#[trigger] list[i]) == Some(id),
    decreases list.len(),
{
    if list.len() > 0 {
        let rest = list.drop_last();
        let head = integers_among(rest);
        integers_are_those_written(rest, id);
        if exists|i: int| 0 <= i < list.len() && i64_value(#[trigger] list[i]) == Some(id) {
            let i = choose|i: int|
                0 <= i < list.len() && i64_value(#[trigger] list[i]) == Some(id);
            if i < list.len() - 1 {
                assert(rest[i] == list[i]);
                let j = choose|j: int| 0 <= j < head.len() && head[j] == id;
                assert(integers_among(list)[j] == id);
            } else {
                assert(integers_among(list)[head.len() as int] == id);
            }
        }
        if integers_among(list).contains(id) {
            let j = choose|j: int|
                0 <= j < integers_among(list).len() && integers_among(list)[j] == id;
            if j < head.len() {
                assert(head[j] == id);
                let i = choose|i: int|
                    0 <= i < rest.len() && i64_value(#[trigger] rest[i]) == Some(id);
                assert(list[i] == rest[i]);
            } else {
                assert(i64_value(list[list.len() - 1]) == Some(id));
            }
        }
    }
}

/// Whether an application may be entered by a member of some groups: it is not
/// disabled, and it has no group, or one that the groups name by its identifier or
/// by a text that writes its id.
pub open spec fn may_enter(world: World, app: AppRow, groups: Seq<Seq<char>>) -> bool {
    &&& !app.app.disabled
    &&& app.app.group_id is None || exists|g: GroupRow| #[trigger]
        world.groups.contains(g) && app.app.group_id == Some(g.id) && exists|i: int|
            0 <= i < groups.len() && (#[trigger] groups[i] == g.identifier || i64_value(groups[i])
                == Some(g.id))
}

/// Whether a client id is that of an application which may be entered by a member
/// of some groups.
pub open spec fn open_door(world: World, client_id: Seq<char>, groups: Seq<Seq<char>>) -> bool {
    exists|a: AppRow| #[trigger]
        world.apps.contains(a) && a.app.client_id == client_id && may_enter(world, a, groups)
}

/// A client id that is taken once is open to some groups if and only if its
/// application may be entered by a member of them.
pub proof fn open_door_is_open(world: World, client_id: Seq<char>, groups: Seq<Seq<char>>)
    requires
        client_id_is_unique(world, client_id),
    ensures
        world.open_to(client_id, groups) <==> open_door(world, client_id, groups),
{
    let ids = integers_among(groups);
    assert forall|a: AppRow| world.app_of_groups(a, groups, ids) <==> exists|g: GroupRow|
        #[trigger]
        world.groups.contains(g) && a.app.group_id == Some(g.id) && exists|i: int|
            0 <= i < groups.len() && (#[trigger] groups[i] == g.identifier || i64_value(groups[i])
                == Some(g.id)) by {
        assert forall|g: GroupRow| #[trigger] world.groups.contains(g) implies ((
        groups.contains(g.identifier) || ids.contains(g.id)) <==> exists|i: int|
            0 <= i < groups.len() && (#[trigger] groups[i] == g.identifier || i64_value(groups[i])
                == Some(g.id))) by {
            integers_are_those_written(groups, g.id);
        }
    }
    if world.open_to(client_id, groups) {
        let enabled = choose|a: AppRow| #[trigger]
            world.apps.contains(a) && a.app.client_id == client_id && !a.app.disabled;
        let a = choose|a: AppRow| #[trigger]
            world.apps.contains(a) && a.app.client_id == client_id && ((a.app.group_id is None
                && !a.app.disabled) || world.app_of_groups(a, groups, ids));
        assert(world.apps.contains(enabled) && world.apps.contains(a));
        assert(enabled == a);
        assert(may_enter(world, a, groups));
    }
    if open_door(world, client_id, groups) {
        let a = choose|a: AppRow| #[trigger]
            world.apps.contains(a) && a.app.client_id == client_id && may_enter(world, a, groups);
        assert(world.apps.contains(a));
        assert(world.has_enabled_app(client_id));
        assert((a.app.group_id is None && !a.app.disabled) || world.app_of_groups(a, groups, ids));
    }
}

/// Whether a question for access has come as far as an application that is enabled
/// and has a group.
pub open spec fn found_with_group(access: AppAccess, world: World) -> bool {
    access.stage is MatchGroups ==> exists|a: AppRow| #[trigger]
        world.apps.contains(a) && a.app.client_id == access.app_id@ && !a.app.disabled
            && a.app.group_id is Some
}

/// One reply to the question for access, from a service that does not fail: if it
/// settles the question, the answer is yes if and only if the application may be
/// entered by a member of the groups that are given. Otherwise the question goes on
/// for the same application and the same groups.
pub proof fn access_is_settled(access: AppAccess, world: World, reply: Reply)
    requires
        client_id_is_unique(world, access.app_id@),
        found_with_group(access, world),
        world.tells(access.asks(), reply),
        world.smooth(access.asks(), reply),
    ensures
        match access.next(reply) {
            AccessProgress::Known { access: then, allowed } => allowed == open_door(
                world,
                access.app_id@,
                groups_given(access.user_groups),
            ) && then.app_id == access.app_id && then.user_groups == access.user_groups,
            AccessProgress::Ask(then) => then.app_id == access.app_id && then.user_groups
                == access.user_groups && found_with_group(then, world),
            AccessProgress::Failed { .. } => false,
        },
{
    let client_id = access.app_id@;
    let groups = groups_given(access.user_groups);
    assert(groups == known(access.user_groups));
    open_door_is_open(world, client_id, groups);
    match (access.stage, reply) {
        (AppAccessStage::FindApp, Reply::App(Ok(app))) => {
            let row = app_row(app);
            assert(world.apps.contains(row));
            if app.group_id is None {
                assert(may_enter(world, row, groups));
            }
        },
        (AppAccessStage::FindApp, Reply::App(Err(_))) => {
            assert(!world.has_enabled_app(client_id));
        },
        (AppAccessStage::MatchGroups, Reply::MaybeId(Ok(None))) => {
            let found = choose|a: AppRow| #[trigger]
                world.apps.contains(a) && a.app.client_id == client_id && !a.app.disabled
                    && a.app.group_id is Some;
            assert(world.apps.contains(found));
        },
        (AppAccessStage::MatchGroups, Reply::MaybeId(Ok(Some(_)))) => {
            let found = choose|a: AppRow| #[trigger]
                world.apps.contains(a) && a.app.client_id == client_id && !a.app.disabled
                    && a.app.group_id is Some;
            assert(world.apps.contains(found));
            assert(world.has_enabled_app(client_id));
        },
        _ => {},
    }
}

/// Whether a member of some groups may sign in to an application is asked of that
/// application and these groups, and is answered, by services that do not fail,
/// with yes if and only if the application may be entered by a member of them. In
/// particular an enabled application without a group is open whatever the groups.
pub proof fn question_for_access_is_answered(
    app_id: String,
    user_groups: Option<Vec<String>>,
    access: AppAccess,
    world: World,
    first: Reply,
    second: Reply,
)
    requires
        call_ensures(user_has_access_to_app, (app_id, user_groups), access),
        client_id_is_unique(world, app_id@),
        world.tells(access.asks(), first),
        world.smooth(access.asks(), first),
        access.next(first) matches AccessProgress::Ask(then) ==> world.tells(then.asks(), second)
            && world.smooth(then.asks(), second),
    ensures
        match access.next(first) {
            AccessProgress::Known { allowed, .. } => allowed == open_door(
                world,
                app_id@,
                groups_given(user_groups),
            ),
            AccessProgress::Ask(then) => match then.next(second) {
                AccessProgress::Known { allowed, .. } => allowed == open_door(
                    world,
                    app_id@,
                    groups_given(user_groups),
                ),
                _ => false,
            },
            AccessProgress::Failed { .. } => false,
        },
{
    access_is_settled(access, world, first);
    match access.next(first) {
        AccessProgress::Ask(then) => {
            access_is_settled(then, world, second);
        },
        _ => {},
    }
}

/// Whether an application is one that a request describes: it has every field that
/// the request names, no text and no group that the request does not name, and only
/// those flags set that the request sets.
pub open spec fn as_described(app: NewAppView, request: CreateOrUpdateAppRequest) -> bool {
    &&& app.client_id == request.client_id@
    &&& match request.name {
        Some(name) => app.name == name@,
        None => app.name.len() == 0,
    }
    &&& app.logo_url == maybe_text(request.logo_url)
    &&& app.app_url_dev == maybe_text(request.app_url_dev)
    &&& app.app_url_stage == maybe_text(request.app_url_stage)
    &&& app.app_url_prod == maybe_text(request.app_url_prod)
    &&& app.group_id == request.group_id
    &&& app.tnc_link == maybe_text(request.tnc_link)
    &&& app.description == maybe_text(request.description)
    &&& app.auth_redirection_path == maybe_text(request.auth_redirection_path)
    &&& app.disabled <==> request.disabled == Some(true)
    &&& app.allow_registration <==> request.allow_registration == Some(true)
    &&& app.web_interface <==> request.web_interface == Some(true)
}

/// Whether an application is what a request makes of another: it has every field
/// that the request names, and the others are as they were.
pub open spec fn as_changed(
    app: NewAppView,
    before: NewAppView,
    request: CreateOrUpdateAppRequest,
) -> bool {
    &&& app.client_id == before.client_id
    &&& app.name == (match request.name {
        Some(name) => name@,
        None => before.name,
    })
    &&& app.logo_url == (if request.logo_url is Some {
        maybe_text(request.logo_url)
    } else {
        before.logo_url
    })
    &&& app.disabled == (match request.disabled {
        Some(flag) => flag,
        None => before.disabled,
    })
    &&& app.app_url_dev == (if request.app_url_dev is Some {
        maybe_text(request.app_url_dev)
    } else {
        before.app_url_dev
    })
    &&& app.app_url_stage == (if request.app_url_stage is Some {
        maybe_text(request.app_url_stage)
    } else {
        before.app_url_stage
    })
    &&& app.app_url_prod == (if request.app_url_prod is Some {
        maybe_text(request.app_url_prod)
    } else {
        before.app_url_prod
    })
    &&& app.group_id == (if request.group_id is Some {
        request.group_id
    } else {
        before.group_id
    })
    &&& app.tnc_link == (if request.tnc_link is Some {
        maybe_text(request.tnc_link)
    } else {
        before.tnc_link
    })
    &&& app.allow_registration == (match request.allow_registration {
        Some(flag) => flag,
        None => before.allow_registration,
    })
    &&& app.description == (if request.description is Some {
        maybe_text(request.description)
    } else {
        before.description
    })
    &&& app.auth_redirection_path == (if request.auth_redirection_path is Some {
        maybe_text(request.auth_redirection_path)
    } else {
        before.auth_redirection_path
    })
    &&& app.web_interface == (match request.web_interface {
        Some(flag) => flag,
        None => before.web_interface,
    })
}

/// A new application is stored as the request describes it. In particular its flags
/// are not set unless the request sets them, so that one of which the request does
/// not say that it is disabled can be signed in to from then on. Nothing else
/// changes.
pub proof fn new_app_is_as_described(
    asked: CreateOrUpdateAppRequest,
    claims: APIClaims,
    request: CreateOrUpdateApp,
    world: World,
    replies: Seq<Reply>,
)
    requires
        call_ensures(create_or_update_app, (asked, claims), request),
        !world.has_app(asked.client_id@),
        truthful(begun(request, world), replies),
    ensures
        served(begun(request, world), replies).outcome matches Outcome::Done(Ok(_)) ==> {
            let after = served(begun(request, world), replies).world;
            &&& exists|row: AppRow|
                after == (World { apps: #[trigger] world.apps.insert(row), ..world })
                    && as_described(row.app, asked) && row.id == new_app_id(world.apps)
            &&& after.has_enabled_app(asked.client_id@) <==> asked.disabled != Some(true)
        },
{
    app_is_stored(request, world, replies);
    match served(begun(request, world), replies).outcome {
        Outcome::Done(Ok(_)) => {
            let after = served(begun(request, world), replies).world;
            let row = AppRow { id: new_app_id(world.apps), app: app_of(asked) };
            assert(after.apps == world.apps.insert(row));
            assert(as_described(row.app, asked));
            assert(after.apps.contains(row));
            if after.has_enabled_app(asked.client_id@) {
                let a = choose|a: AppRow| #[trigger]
                    after.apps.contains(a) && a.app.client_id == asked.client_id@
                        && !a.app.disabled;
                if a != row {
                    assert(world.apps.contains(a));
                }
            }
        },
        _ => {},
    }
}

/// An application that is stored again has the fields that the request names, and
/// the others are as they were. Every other application is as it was.
pub proof fn known_app_is_changed_as_described(
    asked: CreateOrUpdateAppRequest,
    claims: APIClaims,
    request: CreateOrUpdateApp,
    world: World,
    replies: Seq<Reply>,
    before: AppRow,
)
    requires
        call_ensures(create_or_update_app, (asked, claims), request),
        world.apps.contains(before),
        before.app.client_id == asked.client_id@,
        client_id_is_unique(world, asked.client_id@),
        forall|a: AppRow| #[trigger] world.apps.contains(a) && a.id == before.id ==> a == before,
        truthful(begun(request, world), replies),
    ensures
        served(begun(request, world), replies).outcome matches Outcome::Done(Ok(_)) ==> {
            let after = served(begun(request, world), replies).world;
            &&& after == World { apps: after.apps, ..world }
            &&& exists|row: AppRow| #[trigger]
                after.apps.contains(row) && row.id == before.id && as_changed(
                    row.app,
                    before.app,
                    asked,
                ) && after.apps == world.apps.remove(before).insert(row)
        },
{
    app_is_stored(request, world, replies);
    match served(begun(request, world), replies).outcome {
        Outcome::Done(Ok(_)) => {
            let after = served(begun(request, world), replies).world;
            let changes = changes_of(asked);
            assert(world.has_app(asked.client_id@));
            let app = choose|app: AppRow| #[trigger]
                world.apps.contains(app) && app.app.client_id == asked.client_id@ && after == (
                World { apps: apps_changed(world.apps, app.id, changes), ..world });
            assert(app == before);
            let row = AppRow { app: changed(before.app, changes), ..before };
            let change = |a: AppRow|
                if a.id == before.id {
                    AppRow { app: changed(a.app, changes), ..a }
                } else {
                    a
                };
            assert forall|a: AppRow| after.apps.contains(a) <==> world.apps.remove(before).insert(
                row,
            ).contains(a) by {
                if after.apps.contains(a) {
                    let first = choose|first: AppRow|
                        world.apps.contains(first) && a == change(first);
                    assert(world.apps.contains(first) && a == change(first));
                    if first.id == before.id {
                        assert(first == before);
                    }
                }
                if a == row {
                    assert(change(before) == row);
                    assert(after.apps.contains(change(before)));
                } else if world.apps.remove(before).contains(a) {
                    assert(change(a) == a);
                    assert(after.apps.contains(change(a)));
                }
            }
            assert(after.apps =~= world.apps.remove(before).insert(row));
            assert(as_changed(row.app, before.app, asked));
            assert(after.apps.contains(row));
        },
        _ => {},
    }
}

/// An application is stored unless a service fails.
pub proof fn storing_is_not_refused(
    request: CreateOrUpdateApp,
    world: World,
    replies: Seq<Reply>,
)
    requires
        request.stage is OpenDatabase,
        lucky(begun(request, world), replies),
    ensures
        !(served(begun(request, world), replies).outcome matches Outcome::Done(Err(_))),
{
    kept_throughout(
        begun(request, world),
        replies,
        luck(),
        |s: Standing<CreateOrUpdateApp, CreatedView>| !(s.outcome matches Outcome::Done(Err(_))),
    );
}

/// Whether what anybody may know of an application is as it is stored.
pub open spec fn described_as(answer: AppResponse, app: NewAppView) -> bool {
    &&& answer.name@ == app.name
    &&& maybe_text(answer.logo_url) == app.logo_url
    &&& maybe_text(answer.app_url_dev) == app.app_url_dev
    &&& maybe_text(answer.app_url_stage) == app.app_url_stage
    &&& maybe_text(answer.app_url_prod) == app.app_url_prod
    &&& maybe_text(answer.tnc_link) == app.tnc_link
    &&& answer.allow_registration == app.allow_registration
    &&& maybe_text(answer.redirection_path) == app.auth_redirection_path
}

/// Whether an answer describes an enabled application with a client id.
pub open spec fn describes_app(world: World, client_id: Seq<char>, answer: AppResponse) -> bool {
    exists|a: AppRow| #[trigger]
        world.apps.contains(a) && a.app.client_id == client_id && !a.app.disabled && described_as(
            answer,
            a.app,
        )
}

/// What is told of an application by its client id is what is stored of an enabled
/// one with that client id. If no service fails, it is told if there is one, and
/// otherwise answered with not found. Nothing changes.
pub proof fn app_is_told_by_client_id(
    client_id: String,
    request: GetApp,
    world: World,
    replies: Seq<Reply>,
)
    requires
        call_ensures(get_app_by_client_id, (client_id,), request),
        truthful(begun(request, world), replies),
    ensures
        served(begun(request, world), replies).world == world,
        served(begun(request, world), replies).outcome matches Outcome::Done(Ok(answer))
            ==> describes_app(world, client_id@, answer),
        lucky(begun(request, world), replies) ==> match served(
            begun(request, world),
            replies,
        ).outcome {
            Outcome::Ask(_) => true,
            Outcome::Done(Ok(_)) => world.has_enabled_app(client_id@),
            Outcome::Done(Err(f)) => !world.has_enabled_app(client_id@) && f.status_code == 404,
        },
{
    let told = |s: Standing<GetApp, AppResponse>|
        s.world == world && match s.outcome {
            Outcome::Ask(h) => h.client_id == client_id,
            Outcome::Done(Ok(answer)) => describes_app(world, client_id@, answer),
            Outcome::Done(Err(_)) => true,
        };
    assert forall|h: GetApp, now: World, reply: Reply|
        told(begun(h, now)) && #[trigger] truth()(now, h.asks(), reply) implies told(
        Standing { outcome: h.next(reply), world: now.left_by(h.asks(), reply) },
    ) by {
        match (h.stage, reply) {
            (GetAppStage::FindApp, Reply::App(Ok(app))) => {
                assert(world.apps.contains(app_row(app)));
            },
            _ => {},
        }
    }
    kept_throughout(begun(request, world), replies, truth(), told);
    if lucky(begun(request, world), replies) {
        kept_throughout(
            begun(request, world),
            replies,
            luck(),
            |s: Standing<GetApp, AppResponse>|
                s.world == world && match s.outcome {
                    Outcome::Ask(h) => h.client_id == client_id,
                    Outcome::Done(Ok(_)) => true,
                    Outcome::Done(Err(f)) => !world.has_enabled_app(client_id@) && f.status_code
                        == 404,
                },
        );
    }
}

/// What is listed of one application: it, with all that is told of it, if it has no
/// group or one of the groups, and otherwise nothing.
pub proof fn one_listing_is_told(
    listings: Vec<AppListing>,
    groups: Vec<String>,
    r: Vec<AccessibleApp>,
)
    requires
        listings@.len() == 1,
        call_ensures(list_accessible_apps, (&listings, &groups), r),
    ensures
        r@.len() == (if listings@[0].group_identifier matches Some(identifier) && !groups_given(
            Some(groups),
        ).contains(identifier@) {
            0nat
        } else {
            1
        }),
        r@.len() == 1 ==> {
            let listing = listings@[0];
            let info = r@[0];
            &&& info.name == listing.name
            &&& info.logo_url == listing.logo_url
            &&& info.allow_registration == listing.allow_registration
            &&& info.tnc_link == listing.tnc_link
            &&& info.description == listing.description
            &&& info.app_url_dev == listing.app_url_dev
            &&& info.app_url_stage == listing.app_url_stage
            &&& info.app_url_prod == listing.app_url_prod
            &&& info.redirection_path == listing.auth_redirection_path
            &&& info.has_web_interface == listing.web_interface
        },
{
    reveal(Seq::filter);
    let open = |l: AppListing| accessible(l, texts(groups@));
    assert(listings@.drop_last() =~= Seq::<AppListing>::empty());
    assert(listings@.last() == listings@[0]);
    assert(listings@.drop_last().filter(open) =~= Seq::<AppListing>::empty());
    assert(groups_given(Some(groups)) =~= texts(groups@));
}

/// What is listed of some applications and further ones is what is listed of the
/// ones, followed by what is listed of the others: the order is kept and nothing is
/// left out or told twice.
pub proof fn listings_are_told_in_order(
    first: Vec<AppListing>,
    second: Vec<AppListing>,
    all: Vec<AppListing>,
    groups: Vec<String>,
    one: Vec<AccessibleApp>,
    two: Vec<AccessibleApp>,
    both: Vec<AccessibleApp>,
)
    requires
        all@ == first@ + second@,
        call_ensures(list_accessible_apps, (&first, &groups), one),
        call_ensures(list_accessible_apps, (&second, &groups), two),
        call_ensures(list_accessible_apps, (&all, &groups), both),
    ensures
        both@ == one@ + two@,
{
    let open = |l: AppListing| accessible(l, texts(groups@));
    Seq::filter_distributes_over_add(first@, second@, open);
    assert(both@ =~= one@ + two@);
}

/// The applications of a user are listed unless a service fails.
pub proof fn accessible_apps_are_not_refused(
    request: GetAccessibleApps,
    world: World,
    replies: Seq<Reply>,
)
    requires
        request.stage is OpenDatabase,
        lucky(begun(request, world), replies),
    ensures
        !(served(begun(request, world), replies).outcome matches Outcome::Done(Err(_))),
{
    kept_throughout(
        begun(request, world),
        replies,
        luck(),
        |s: Standing<GetAccessibleApps, Seq<AccessibleApp>>|
            !(s.outcome matches Outcome::Done(Err(_))),
    );
}

/// The applications of a user are those that are listed of what the store lists, by the
/// groups of the user.
pub proof fn listed_apps_are_told(
    request: GetAccessibleApps,
    listings: Vec<AppListing>,
    r: Vec<AccessibleApp>,
)
    requires
        request.stage is List,
        call_ensures(list_accessible_apps, (&listings, &request.groups.0), r),
    ensures
        request.next(Reply::Listings(Ok(listings))) == Outcome::<
            GetAccessibleApps,
            Seq<AccessibleApp>,
        >::Done(Ok(r@)),
{
}

} // verus!
