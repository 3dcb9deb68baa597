//! Laws of groups.

use crate::error::{at, refusal, Failure, Status};
use crate::models::{
    APIClaims, Claims, CreateGroupRequest, Group, GroupKey, GroupMemberships, GroupOwnerships,
    ISCClaims, IsMemberResponse, Member, Members, User, UserInfoView,
};
use crate::protocol::{Handler, Outcome, Reply};
use crate::routes::groups::{
    create_group, fetch_group_members_ids, get_group_members_ids, get_group_members_ids_api_land,
    get_group_members_ids_user_land, get_group_memberships, get_group_ownserships, get_members,
    group_key, is_member, key_of, list_members, manage_membership, members_info, CreateGroup, CreateGroupStage, GetMembers, GetMembersStage,
    GroupMembersIds, GroupMembersIdsStage, ManageMembership, ManageMembershipStage,
};
use crate::text::{i64_value, maybe_text, texts};
use crate::world::{
    account_of, begun, group_row, has_key, kept_throughout, luck, lucky, lucky_is_truthful, served,
    truth, truthful, Account, GroupRow, Standing, World,
};
use vstd::prelude::*;

verus! {

/// What a change of membership leaves: the memberships and ownerships of one
/// user in one group are set as the action says, and nothing else changes.
pub open spec fn membership_changed(
    before: World,
    action: Seq<char>,
    user: i64,
    group: i64,
) -> World {
    if action == "add-member"@ {
        World {
            members: before.members.insert((user, group)),
            owners: before.owners.remove((user, group)),
            ..before
        }
    } else if action == "add-admin"@ {
        World {
            members: before.members.insert((user, group)),
            owners: before.owners.insert((user, group)),
            ..before
        }
    } else {
        World {
            members: before.members.remove((user, group)),
            owners: before.owners.remove((user, group)),
            ..before
        }
    }
}

/// Whether a group is the one that a request names.
pub open spec fn named_group(request: ManageMembership, world: World, group: Group) -> bool {
    world.groups.contains(group_row(group)) && has_key(
        group_row(group),
        key_of(request.group_param),
    )
}

/// Whether an account is the one that a request names.
pub open spec fn named_user(request: ManageMembership, world: World, user: User) -> bool {
    world.users.contains(account_of(user)) && user.email_id@ == request.user_id@
}

/// What a change of membership has left at the end.
pub open spec fn membership_managed(
    request: ManageMembership,
    before: World,
    after: World,
) -> bool {
    &&& request.action@ == "add-member"@ || request.action@ == "add-admin"@ || request.action@
        == "remove"@
    &&& exists|user: User, group: Group| #[trigger]
        named_user(request, before, user) && #[trigger] named_group(request, before, group) && after
            == membership_changed(before, request.action@, user.id, group.id)
}

/// What a change of membership leaves whose second step failed: the first step.
pub open spec fn membership_half_changed(
    before: World,
    action: Seq<char>,
    user: i64,
    group: i64,
) -> World {
    if action == "add-member"@ {
        World { owners: before.owners.remove((user, group)), ..before }
    } else if action == "add-admin"@ {
        World { members: before.members.insert((user, group)), ..before }
    } else {
        World { members: before.members.remove((user, group)), ..before }
    }
}

/// What a change of membership that failed has left: everything as it was, or only
/// the first of the two steps of one of the three actions.
pub open spec fn membership_not_managed(
    request: ManageMembership,
    before: World,
    after: World,
) -> bool {
    ||| after == before
    ||| (request.action@ == "add-member"@ || request.action@ == "add-admin"@ || request.action@
        == "remove"@) && exists|user: User, group: Group| #[trigger]
        named_user(request, before, user) && #[trigger] named_group(request, before, group) && after
            == membership_half_changed(before, request.action@, user.id, group.id)
}

/// How a change of membership stands on its way.
spec fn managing(
    request: ManageMembership,
    before: World,
    s: Standing<ManageMembership, Seq<char>>,
) -> bool {
    let now = s.world;
    match s.outcome {
        Outcome::Ask(h) => {
            &&& h == ManageMembership { stage: h.stage, ..request }
            &&& match h.stage {
                ManageMembershipStage::OpenDatabase => now == before,
                ManageMembershipStage::FindGroup => now == before,
                ManageMembershipStage::FindUser { group } => now == before && named_group(
                    request,
                    before,
                    group,
                ),
                ManageMembershipStage::DemoteOwner { group, user }
                | ManageMembershipStage::EnrolMember { group, user }
                | ManageMembershipStage::EnrolAdmin { group, user }
                | ManageMembershipStage::PromoteAdmin { group, user }
                | ManageMembershipStage::DropMember { group, user }
                | ManageMembershipStage::DropOwner { group, user } => named_group(
                    request,
                    before,
                    group,
                ) && named_user(request, before, user),
            }
            &&& match h.stage {
                ManageMembershipStage::DemoteOwner { .. } => request.action@ == "add-member"@ && now
                    == before,
                ManageMembershipStage::EnrolMember { group, user } => request.action@
                    == "add-member"@ && now == World {
                    owners: before.owners.remove((user.id, group.id)),
                    ..before
                },
                ManageMembershipStage::EnrolAdmin { .. } => request.action@ == "add-admin"@ && now
                    == before,
                ManageMembershipStage::PromoteAdmin { group, user } => request.action@
                    == "add-admin"@ && now == World {
                    members: before.members.insert((user.id, group.id)),
                    ..before
                },
                ManageMembershipStage::DropMember { .. } => request.action@ == "remove"@ && now
                    == before,
                ManageMembershipStage::DropOwner { group, user } => request.action@ == "remove"@
                    && now == World {
                    members: before.members.remove((user.id, group.id)),
                    ..before
                },
                _ => true,
            }
        },
        Outcome::Done(Ok(_)) => membership_managed(request, before, now),
        Outcome::Done(Err(_)) => membership_not_managed(request, before, now),
    }
}

/// A change of membership that succeeds was one of the three actions, on a user
/// and a group that exist. After `add-member` the user is a member and no owner
/// of the group, after `add-admin` both, after `remove` neither. All else is as
/// before. One that fails leaves at most the first step of its action.
pub proof fn membership_is_managed(request: ManageMembership, world: World, replies: Seq<Reply>)
    requires
        request.stage is OpenDatabase,
        truthful(begun(request, world), replies),
    ensures
        match served(begun(request, world), replies).outcome {
            Outcome::Ask(_) => true,
            Outcome::Done(Ok(_)) => membership_managed(
                request,
                world,
                served(begun(request, world), replies).world,
            ),
            Outcome::Done(Err(_)) => membership_not_managed(
                request,
                world,
                served(begun(request, world), replies).world,
            ),
        },
{
    reveal_strlit("add-member");
    reveal_strlit("add-admin");
    reveal_strlit("remove");
    kept_throughout(
        begun(request, world),
        replies,
        truth(),
        |s: Standing<ManageMembership, Seq<char>>| managing(request, world, s),
    );
}

/// Whether a request names one user and one group: all that it may name have the
/// same ids.
pub open spec fn names_one(request: ManageMembership, world: World) -> bool {
    &&& forall|a: Account, b: Account| #[trigger]
        world.users.contains(a) && #[trigger] world.users.contains(b) && a.email
            == request.user_id@ && b.email == request.user_id@ ==> a.id == b.id
    &&& forall|g: GroupRow, h: GroupRow| #[trigger]
        world.groups.contains(g) && #[trigger] world.groups.contains(h) && has_key(
            g,
            key_of(request.group_param),
        ) && has_key(h, key_of(request.group_param)) ==> g.id == h.id
}

/// A removal that is repeated changes nothing, and neither does any other action:
/// once a change of membership has succeeded, the same request, if it succeeds,
/// leaves everything as it is.
pub proof fn repeated_change_changes_nothing(
    request: ManageMembership,
    world: World,
    replies: Seq<Reply>,
    again: ManageMembership,
    later: Seq<Reply>,
)
    requires
        request.stage is OpenDatabase,
        again == request,
        names_one(request, world),
        truthful(begun(request, world), replies),
        served(begun(request, world), replies).outcome matches Outcome::Done(Ok(_)),
        truthful(begun(again, served(begun(request, world), replies).world), later),
        served(
            begun(again, served(begun(request, world), replies).world),
            later,
        ).outcome matches Outcome::Done(Ok(_)),
    ensures
        served(begun(again, served(begun(request, world), replies).world), later).world == served(
            begun(request, world),
            replies,
        ).world,
{
    let once = served(begun(request, world), replies).world;
    let twice = served(begun(again, once), later).world;
    membership_is_managed(request, world, replies);
    membership_is_managed(again, once, later);
    let (user, group) = choose|user: User, group: Group| #[trigger]
        named_user(request, world, user) && #[trigger] named_group(request, world, group) && once
            == membership_changed(world, request.action@, user.id, group.id);
    let (other, found) = choose|other: User, found: Group| #[trigger]
        named_user(again, once, other) && #[trigger] named_group(again, once, found) && twice
            == membership_changed(once, again.action@, other.id, found.id);
    assert(world.users.contains(account_of(user)) && world.users.contains(account_of(other)));
    assert(world.groups.contains(group_row(group)) && world.groups.contains(group_row(found)));
    assert(account_of(user).id == account_of(other).id);
    assert(group_row(group).id == group_row(found).id);
    assert(twice.members =~= once.members);
    assert(twice.owners =~= once.owners);
}

/// What the making of a group has left at the end: a group that was not there,
/// under an id of its own, with its maker as a member and an owner. The cached list
/// of their groups is forgotten.
pub open spec fn group_made(
    request: CreateGroup,
    before: World,
    group: Group,
    after: World,
) -> bool {
    &&& !before.has_group(GroupKey::Identifier(request.request.id))
    &&& before.unused_group_id(group.id)
    &&& group.identifier@ == request.request.id@
    &&& !group.disabled
    &&& maybe_text(group.short_text) == maybe_text(request.request.description)
    &&& i64_value(request.claims.user_id@) matches Some(maker) && after == World {
        groups: before.groups.insert(group_row(group)),
        members: before.members.insert((maker, group.id)),
        owners: before.owners.insert((maker, group.id)),
        cache: before.cache.remove("user_groups:"@ + request.claims.user_id@),
        ..before
    }
}

/// How the making of a group stands on its way.
spec fn making(request: CreateGroup, before: World, s: Standing<CreateGroup, Group>) -> bool {
    let now = s.world;
    match s.outcome {
        Outcome::Ask(h) => {
            &&& h == CreateGroup { stage: h.stage, ..request }
            &&& match h.stage {
                CreateGroupStage::OpenDatabase => now == before,
                CreateGroupStage::OpenCache => now == before,
                CreateGroupStage::FindGroup => now == before,
                CreateGroupStage::Insert => now == before && !before.has_group(
                    GroupKey::Identifier(request.request.id),
                ),
                CreateGroupStage::AddMember { group, user } => now == World {
                    groups: before.groups.insert(group_row(group)),
                    ..before
                } && i64_value(request.claims.user_id@) == Some(user),
                CreateGroupStage::AddOwner { group, user } => now == World {
                    groups: before.groups.insert(group_row(group)),
                    members: before.members.insert((user, group.id)),
                    ..before
                } && i64_value(request.claims.user_id@) == Some(user),
                CreateGroupStage::Forget { group } => i64_value(
                    request.claims.user_id@,
                ) matches Some(user) && now == World {
                    groups: before.groups.insert(group_row(group)),
                    members: before.members.insert((user, group.id)),
                    owners: before.owners.insert((user, group.id)),
                    ..before
                },
            }
            &&& match h.stage {
                CreateGroupStage::AddMember { group, .. }
                | CreateGroupStage::AddOwner { group, .. }
                | CreateGroupStage::Forget { group } => {
                    &&& !before.has_group(GroupKey::Identifier(request.request.id))
                    &&& before.unused_group_id(group.id)
                    &&& group.identifier@ == request.request.id@
                    &&& !group.disabled
                    &&& maybe_text(group.short_text) == maybe_text(request.request.description)
                },
                _ => true,
            }
        },
        Outcome::Done(Ok(group)) => group_made(request, before, group, now),
        _ => true,
    }
}

/// A group that was made was not there before, and its maker is a member and an
/// owner of it. All else in the database is as before.
pub proof fn maker_owns_group(request: CreateGroup, world: World, replies: Seq<Reply>)
    requires
        request.stage is OpenDatabase,
        truthful(begun(request, world), replies),
    ensures
        served(begun(request, world), replies).outcome matches Outcome::Done(Ok(group))
            ==> group_made(request, world, group, served(begun(request, world), replies).world),
{
    kept_throughout(
        begun(request, world),
        replies,
        truth(),
        |s: Standing<CreateGroup, Group>| making(request, world, s),
    );
}

/// The refusal of an identifier that is taken.
pub open spec fn identifier_taken(identifier: Seq<char>) -> Failure {
    refusal(
        Status::Conflict,
        at("create_group"@, "a group with identifier '"@ + identifier + "' already exists"@),
    )
}

/// An identifier that is taken is refused with a conflict, and nothing changes.
pub proof fn taken_identifier_is_refused(request: CreateGroup, world: World, replies: Seq<Reply>)
    requires
        request.stage is OpenDatabase,
        world.has_group(GroupKey::Identifier(request.request.id)),
        lucky(begun(request, world), replies),
    ensures
        served(begun(request, world), replies).world == world,
        match served(begun(request, world), replies).outcome {
            Outcome::Ask(_) => true,
            Outcome::Done(Err(f)) => f == identifier_taken(request.request.id@),
            _ => false,
        },
{
    kept_throughout(
        begun(request, world),
        replies,
        luck(),
        |s: Standing<CreateGroup, Group>|
            s.world == world && match s.outcome {
                Outcome::Ask(h) => h.request == request.request && (h.stage is OpenDatabase
                    || h.stage is OpenCache || h.stage is FindGroup),
                Outcome::Done(Err(f)) => f == identifier_taken(request.request.id@),
                _ => false,
            },
    );
}

/// Whether a list tells of exactly the members of a group, of each once, and which
/// of them own it.
pub open spec fn tells_members(world: World, group: i64, list: Seq<UserInfoView>) -> bool {
    &&& world.has_members(group, list.map_values(|u: UserInfoView| u.pk))
    &&& list.map_values(|u: UserInfoView| u.pk).no_duplicates()
    &&& forall|i: int|
        0 <= i < list.len() ==> (#[trigger] list[i]).is_admin == world.owners.contains(
            (list[i].pk, group),
        )
}

/// How a question for the members of a group stands on its way.
spec fn listing(
    request: GetMembers,
    world: World,
    s: Standing<GetMembers, Seq<UserInfoView>>,
) -> bool {
    s.world == world && match s.outcome {
        Outcome::Ask(h) => h.group_param == request.group_param && match h.stage {
            GetMembersStage::OpenDatabase => true,
            GetMembersStage::FindGroup => true,
            GetMembersStage::Members { group } => group_named(world, request.group_param, group),
            GetMembersStage::Owners { group, members } => group_named(
                world,
                request.group_param,
                group,
            ) && world.has_members(group, members@.map_values(|m: Member| m.id))
                && members@.map_values(|m: Member| m.id).no_duplicates(),
        },
        Outcome::Done(Ok(list)) => exists|group: i64| #[trigger]
            group_named(world, request.group_param, group) && tells_members(world, group, list),
        _ => true,
    }
}

/// Whether an id is that of a group which a request names.
pub open spec fn group_named(world: World, group_param: String, id: i64) -> bool {
    exists|g: GroupRow| #[trigger]
        world.groups.contains(g) && has_key(g, key_of(group_param)) && g.id == id
}

/// The members that are told are those of the group, each with whether they own
/// it. Nothing changes.
pub proof fn members_are_told(request: GetMembers, world: World, replies: Seq<Reply>)
    requires
        request.stage is OpenDatabase,
        truthful(begun(request, world), replies),
    ensures
        served(begun(request, world), replies).world == world,
        served(begun(request, world), replies).outcome matches Outcome::Done(Ok(list))
            ==> exists|group: i64| #[trigger]
            group_named(world, request.group_param, group) && tells_members(world, group, list),
{
    assert forall|h: GetMembers, now: World, reply: Reply|
        listing(request, world, begun(h, now)) && #[trigger] truth()(
            now,
            h.asks(),
            reply,
        ) implies listing(
        request,
        world,
        Standing { outcome: h.next(reply), world: now.left_by(h.asks(), reply) },
    ) by {
        listing_goes_on(request, world, h, now, reply);
    }
    kept_throughout(
        begun(request, world),
        replies,
        truth(),
        |s: Standing<GetMembers, Seq<UserInfoView>>| listing(request, world, s),
    );
}

proof fn listing_goes_on(
    request: GetMembers,
    world: World,
    h: GetMembers,
    now: World,
    reply: Reply,
)
    requires
        listing(request, world, begun(h, now)),
        now.true_reply(h.asks(), reply),
    ensures
        listing(
            request,
            world,
            Standing { outcome: h.next(reply), world: now.left_by(h.asks(), reply) },
        ),
{
    match (h.stage, reply) {
        (GetMembersStage::Owners { group, members }, Reply::Ids(Ok(owners))) => {
            let list = members_info(members@, owners@);
            assert(list.map_values(|u: UserInfoView| u.pk) =~= members@.map_values(
                |m: Member| m.id,
            ));
            assert(tells_members(world, group, list));
        },
        _ => {},
    }
}

/// The members of a group that exists are told unless a service fails.
pub proof fn known_group_is_not_refused(request: GetMembers, world: World, replies: Seq<Reply>)
    requires
        request.stage is OpenDatabase,
        world.has_group(key_of(request.group_param)),
        lucky(begun(request, world), replies),
    ensures
        !(served(begun(request, world), replies).outcome matches Outcome::Done(Err(_))),
{
    kept_throughout(
        begun(request, world),
        replies,
        luck(),
        |s: Standing<GetMembers, Seq<UserInfoView>>|
            s.world == world && match s.outcome {
                Outcome::Ask(h) => h.group_param == request.group_param,
                Outcome::Done(Err(_)) => false,
                _ => true,
            },
    );
}

proof fn made_group_is_the_one_named(
    making: CreateGroup,
    world: World,
    group: Group,
    after: World,
    param: String,
)
    requires
        group_made(making, world, group, after),
        i64_value(making.request.id@) is None,
        param@ == making.request.id@,
    ensures
        after.has_group(key_of(param)),
        forall|id: i64| #[trigger] group_named(after, param, id) ==> id == group.id,
{
    assert(after.groups.contains(group_row(group)));
    assert forall|id: i64| #[trigger] group_named(after, param, id) implies id == group.id by {
        let g = choose|g: GroupRow| #[trigger]
            after.groups.contains(g) && has_key(g, key_of(param)) && g.id == id;
        if g != group_row(group) {
            assert(world.groups.contains(g));
            assert(world.has_group(GroupKey::Identifier(making.request.id)));
        }
    }
}

/// The maker of a group is its one member and owns it: once a group was made
/// whose identifier is no number, the members that are told of it are its maker
/// alone, unless a service fails.
pub proof fn maker_is_the_one_member(
    making: CreateGroup,
    world: World,
    replies: Seq<Reply>,
    request: GetMembers,
    later: Seq<Reply>,
)
    requires
        making.stage is OpenDatabase,
        request.stage is OpenDatabase,
        i64_value(making.request.id@) is None,
        request.group_param@ == making.request.id@,
        truthful(begun(making, world), replies),
        served(begun(making, world), replies).outcome matches Outcome::Done(Ok(_)),
        lucky(begun(request, served(begun(making, world), replies).world), later),
    ensures
        match served(begun(request, served(begun(making, world), replies).world), later).outcome {
            Outcome::Ask(_) => true,
            Outcome::Done(Ok(list)) => list.len() == 1 && Some(list[0].pk) == i64_value(
                making.claims.user_id@,
            ) && list[0].is_admin,
            Outcome::Done(Err(_)) => false,
        },
{
    let after = served(begun(making, world), replies).world;
    maker_owns_group(making, world, replies);
    let group = served(begun(making, world), replies).outcome->Done_0->Ok_0;
    let maker = i64_value(making.claims.user_id@)->0;
    made_group_is_the_one_named(making, world, group, after, request.group_param);
    known_group_is_not_refused(request, after, later);
    lucky_is_truthful(begun(request, after), later);
    members_are_told(request, after, later);
    match served(begun(request, after), later).outcome {
        Outcome::Done(Ok(list)) => {
            assert(tells_members(after, group.id, list));
            let ids = list.map_values(|u: UserInfoView| u.pk);
            assert(after.members.contains((maker, group.id)));
            assert(ids.contains(maker));
            assert forall|i: int| 0 <= i < ids.len() implies ids[i] == maker by {
                assert(ids.contains(ids[i]));
                assert(after.members.contains((ids[i], group.id)));
                if ids[i] != maker {
                    assert(world.members.contains((ids[i], group.id)));
                }
            }
            if list.len() > 1 {
                assert(ids[0] == ids[1]);
            }
            assert(list[0].pk == ids[0]);
            assert(after.owners.contains((maker, group.id)));
        },
        _ => {},
    }
}

/// A group from which its maker was removed has no member: once a group was made
/// whose identifier is no number, and the account of its maker was removed from
/// it, no members are told of it, unless a service fails.
pub proof fn removed_maker_leaves_nobody(
    making: CreateGroup,
    world: World,
    replies: Seq<Reply>,
    removal: ManageMembership,
    more: Seq<Reply>,
    request: GetMembers,
    later: Seq<Reply>,
)
    requires
        making.stage is OpenDatabase,
        removal.stage is OpenDatabase,
        request.stage is OpenDatabase,
        i64_value(making.request.id@) is None,
        removal.group_param@ == making.request.id@,
        removal.action@ == "remove"@,
        request.group_param@ == making.request.id@,
        forall|a: Account| #[trigger]
            world.users.contains(a) && a.email == removal.user_id@ ==> Some(a.id) == i64_value(
                making.claims.user_id@,
            ),
        truthful(begun(making, world), replies),
        served(begun(making, world), replies).outcome matches Outcome::Done(Ok(_)),
        truthful(begun(removal, served(begun(making, world), replies).world), more),
        served(
            begun(removal, served(begun(making, world), replies).world),
            more,
        ).outcome matches Outcome::Done(Ok(_)),
        lucky(
            begun(
                request,
                served(begun(removal, served(begun(making, world), replies).world), more).world,
            ),
            later,
        ),
    ensures
        match served(
            begun(
                request,
                served(begun(removal, served(begun(making, world), replies).world), more).world,
            ),
            later,
        ).outcome {
            Outcome::Ask(_) => true,
            Outcome::Done(Ok(list)) => list.len() == 0,
            Outcome::Done(Err(_)) => false,
        },
{
    let made = served(begun(making, world), replies).world;
    let after = served(begun(removal, made), more).world;
    reveal_strlit("add-member");
    reveal_strlit("add-admin");
    reveal_strlit("remove");
    maker_owns_group(making, world, replies);
    let group = served(begun(making, world), replies).outcome->Done_0->Ok_0;
    let maker = i64_value(making.claims.user_id@)->0;
    made_group_is_the_one_named(making, world, group, made, request.group_param);
    made_group_is_the_one_named(making, world, group, made, removal.group_param);
    membership_is_managed(removal, made, more);
    let (user, found) = choose|user: User, found: Group| #[trigger]
        named_user(removal, made, user) && #[trigger] named_group(removal, made, found) && after
            == membership_changed(made, removal.action@, user.id, found.id);
    assert(made.users.contains(account_of(user)));
    assert(user.id == maker);
    assert(group_named(made, removal.group_param, found.id));
    assert(after.groups == made.groups);
    assert(after.has_group(key_of(request.group_param)));
    known_group_is_not_refused(request, after, later);
    lucky_is_truthful(begun(request, after), later);
    members_are_told(request, after, later);
    match served(begun(request, after), later).outcome {
        Outcome::Done(Ok(list)) => {
            let id = choose|id: i64| #[trigger]
                group_named(after, request.group_param, id) && tells_members(after, id, list);
            assert(group_named(made, request.group_param, id));
            let ids = list.map_values(|u: UserInfoView| u.pk);
            if list.len() > 0 {
                assert(ids.contains(ids[0]));
                assert(after.members.contains((ids[0], group.id)));
                assert(made.members.contains((ids[0], group.id)));
                if ids[0] != maker {
                    assert(world.members.contains((ids[0], group.id)));
                }
            }
        },
        _ => {},
    }
}

/// The ids that are told are those of the members of the group. Nothing changes.
pub proof fn member_ids_are_told(request: GroupMembersIds, world: World, replies: Seq<Reply>)
    requires
        request.stage is OpenDatabase,
        truthful(begun(request, world), replies),
    ensures
        served(begun(request, world), replies).world == world,
        served(begun(request, world), replies).outcome matches Outcome::Done(Ok(ids))
            ==> exists|g: GroupRow| #[trigger]
            world.groups.contains(g) && g.identifier == request.group_identifier@
                && world.has_members(g.id, ids),
{
    kept_throughout(
        begun(request, world),
        replies,
        truth(),
        |s: Standing<GroupMembersIds, Seq<i64>>|
            s.world == world && match s.outcome {
                Outcome::Ask(h) => h.group_identifier == request.group_identifier
                    && match h.stage {
                    GroupMembersIdsStage::Members { group } => exists|g: GroupRow| #[trigger]
                        world.groups.contains(g) && g.identifier == request.group_identifier@
                            && g.id
                            == group,
                    _ => true,
                },
                Outcome::Done(Ok(ids)) => exists|g: GroupRow| #[trigger]
                    world.groups.contains(g) && g.identifier == request.group_identifier@
                        && world.has_members(g.id, ids),
                _ => true,
            },
    );
}

/// Whether a group is the one that a text names: by its id if the text writes a
/// number, and otherwise by its identifier.
pub open spec fn names_group(text: Seq<char>, group: GroupRow) -> bool {
    match i64_value(text) {
        Some(id) => group.id == id,
        None => group.identifier == text,
    }
}

/// A text that writes a number looks up a group by its id, and any other text looks one
/// up by its identifier.
pub proof fn group_is_looked_up_by_id_or_identifier(
    group_param: String,
    key: GroupKey,
    group: GroupRow,
)
    requires
        call_ensures(group_key, (&group_param,), key),
    ensures
        has_key(group, key) <==> names_group(group_param@, group),
        has_key(group, key_of(group_param)) <==> names_group(group_param@, group),
{
}

/// Whether there is a group that a text names.
pub open spec fn names_some_group(world: World, text: Seq<char>) -> bool {
    exists|g: GroupRow| #[trigger] world.groups.contains(g) && names_group(text, g)
}

/// Whether an action is one of the three.
pub open spec fn is_action(action: Seq<char>) -> bool {
    action == "add-member"@ || action == "add-admin"@ || action == "remove"@
}

/// A change of membership succeeds if the group and the user exist and the action is
/// one of the three. Otherwise it is refused and nothing changes: a group or a user
/// that does not exist is not found, and another action is a bad request. A service
/// that fails is the only exception.
pub proof fn membership_of_known_alone_is_managed(
    group_param: String,
    user_id: String,
    action: String,
    request: ManageMembership,
    world: World,
    replies: Seq<Reply>,
)
    requires
        call_ensures(manage_membership, (group_param, user_id, action), request),
        lucky(begun(request, world), replies),
    ensures
        request.group_param == group_param,
        request.user_id == user_id,
        request.action == action,
        request.stage is OpenDatabase,
        match served(begun(request, world), replies).outcome {
            Outcome::Ask(_) => true,
            Outcome::Done(Ok(status)) => {
                &&& status == "success"@
                &&& names_some_group(world, group_param@)
                &&& world.has_email(user_id@)
                &&& is_action(action@)
            },
            Outcome::Done(Err(f)) => {
                &&& served(begun(request, world), replies).world == world
                &&& if names_some_group(world, group_param@) && world.has_email(user_id@) {
                    f.status_code == 400 && !is_action(action@)
                } else {
                    f.status_code == 404
                }
            },
        },
{
    reveal_strlit("add-member");
    reveal_strlit("add-admin");
    reveal_strlit("remove");
    let known = names_some_group(world, group_param@);
    let kept = |s: Standing<ManageMembership, Seq<char>>|
        (s.world == World { members: s.world.members, owners: s.world.owners, ..world })
            && match s.outcome {
            Outcome::Ask(h) => h.group_param == group_param && h.user_id == user_id && h.action
                == action && match h.stage {
                ManageMembershipStage::OpenDatabase | ManageMembershipStage::FindGroup => s.world
                    == world,
                ManageMembershipStage::FindUser { .. } => s.world == world && known,
                _ => known && world.has_email(user_id@) && is_action(action@),
            },
            Outcome::Done(Ok(status)) => status == "success"@ && known && world.has_email(
                user_id@,
            ) && is_action(action@),
            Outcome::Done(Err(f)) => s.world == world && if known && world.has_email(user_id@) {
                f.status_code == 400 && !is_action(action@)
            } else {
                f.status_code == 404
            },
        };
    assert(world.has_group(key_of(group_param)) <==> known) by {
        assert forall|g: GroupRow| #[trigger] world.groups.contains(g) implies (has_key(
            g,
            key_of(group_param),
        ) <==> names_group(group_param@, g)) by {}
    }
    assert forall|h: ManageMembership, now: World, reply: Reply|
        kept(begun(h, now)) && #[trigger] luck()(now, h.asks(), reply) implies kept(
        Standing { outcome: h.next(reply), world: now.left_by(h.asks(), reply) },
    ) by {
        match (h.stage, reply) {
            (ManageMembershipStage::FindGroup, Reply::Group(Ok(group))) => {
                assert(world.groups.contains(group_row(group)));
            },
            (ManageMembershipStage::FindUser { .. }, Reply::User(Ok(user))) => {
                assert(world.users.contains(account_of(user)));
            },
            _ => {},
        }
    }
    kept_throughout(begun(request, world), replies, luck(), kept);
}

/// A group with a new identifier is made, and answered as it was asked for, if the
/// maker has a number for an id. Otherwise the request fails, and so does one for an
/// identifier that is taken. A service that fails is the only exception.
pub proof fn new_group_is_not_refused(
    claims: Claims,
    asked: CreateGroupRequest,
    request: CreateGroup,
    world: World,
    replies: Seq<Reply>,
)
    requires
        call_ensures(create_group, (claims, asked), request),
        lucky(begun(request, world), replies),
    ensures
        request.claims == claims,
        request.request == asked,
        request.stage is OpenDatabase,
        match served(begun(request, world), replies).outcome {
            Outcome::Ask(_) => true,
            Outcome::Done(Ok(group)) => {
                &&& !world.has_group(GroupKey::Identifier(asked.id))
                &&& i64_value(claims.user_id@) is Some
                &&& group.identifier@ == asked.id@
                &&& !group.disabled
                &&& maybe_text(group.short_text) == maybe_text(asked.description)
            },
            Outcome::Done(Err(f)) => if world.has_group(GroupKey::Identifier(asked.id)) {
                f.status_code == 409 && served(begun(request, world), replies).world == world
            } else {
                f.status_code == 500 && i64_value(claims.user_id@) is None
            },
        },
{
    let taken = world.has_group(GroupKey::Identifier(asked.id));
    let kept = |s: Standing<CreateGroup, Group>|
        match s.outcome {
            Outcome::Ask(h) => h.claims == claims && h.request == asked && match h.stage {
                CreateGroupStage::OpenDatabase
                | CreateGroupStage::OpenCache
                | CreateGroupStage::FindGroup => s.world == world,
                CreateGroupStage::Insert => s.world == world && !taken,
                _ => !taken && i64_value(claims.user_id@) is Some,
            },
            Outcome::Done(Ok(group)) => !taken && i64_value(claims.user_id@) is Some,
            Outcome::Done(Err(f)) => if taken {
                f.status_code == 409 && s.world == world
            } else {
                f.status_code == 500 && i64_value(claims.user_id@) is None
            },
        };
    assert forall|h: CreateGroup, now: World, reply: Reply|
        kept(begun(h, now)) && #[trigger] luck()(now, h.asks(), reply) implies kept(
        Standing { outcome: h.next(reply), world: now.left_by(h.asks(), reply) },
    ) by {
        match (h.stage, reply) {
            (CreateGroupStage::FindGroup, Reply::MaybeGroup(Ok(Some(group)))) => {
                assert(world.groups.contains(group_row(group)));
            },
            _ => {},
        }
    }
    kept_throughout(begun(request, world), replies, luck(), kept);
    lucky_is_truthful(begun(request, world), replies);
    maker_owns_group(request, world, replies);
}

/// Whether a member is told to a client as the store lists them: with an empty text
/// for a missing first or last name, and as an administrator if they are among the
/// owners.
pub open spec fn told_member(member: Member, owners: Seq<i64>, told: UserInfoView) -> bool {
    &&& told.pk == member.id
    &&& told.email_id == member.email_id@
    &&& told.first_name == (if member.first_name is Some {
        member.first_name->0@
    } else {
        Seq::empty()
    })
    &&& told.last_name == (if member.last_name is Some {
        member.last_name->0@
    } else {
        Seq::empty()
    })
    &&& told.middle_name == maybe_text(member.middle_name)
    &&& told.is_admin <==> exists|i: int| 0 <= i < owners.len() && #[trigger] owners[i] == member.id
}

/// Members are told one by one, each as the store lists them, in its order.
pub proof fn members_are_told_one_by_one(members: Vec<Member>, owners: Vec<i64>, r: Members)
    requires
        call_ensures(list_members, (&members, &owners), r),
    ensures
        r@.len() == members@.len(),
        forall|i: int|
            0 <= i < members@.len() ==> told_member(members@[i], owners@, #[trigger] r@[i]),
{
}

/// The members that are told of a group are told as the store listed them.
pub proof fn listed_members_are_told(
    request: GetMembers,
    group: i64,
    members: Vec<Member>,
    owners: Vec<i64>,
)
    requires
        request.stage == (GetMembersStage::Owners { group, members }),
    ensures
        request.next(Reply::Ids(Ok(owners))) matches Outcome::Done(Ok(list)) && list.len()
            == members@.len() && forall|i: int|
            0 <= i < members@.len() ==> told_member(members@[i], owners@, #[trigger] list[i]),
{
}

/// The members of a group that exists are told. One that does not exist is not found.
/// A service that fails is the only exception.
pub proof fn members_of_known_group_alone_are_told(
    group_param: String,
    request: GetMembers,
    world: World,
    replies: Seq<Reply>,
)
    requires
        call_ensures(get_members, (group_param,), request),
        lucky(begun(request, world), replies),
    ensures
        request.group_param == group_param,
        request.stage is OpenDatabase,
        match served(begun(request, world), replies).outcome {
            Outcome::Ask(_) => true,
            Outcome::Done(Ok(_)) => names_some_group(world, group_param@),
            Outcome::Done(Err(f)) => !names_some_group(world, group_param@) && f.status_code
                == 404,
        },
{
    let known = names_some_group(world, group_param@);
    assert forall|g: GroupRow| #[trigger] world.groups.contains(g) implies (has_key(
        g,
        key_of(group_param),
    ) <==> names_group(group_param@, g)) by {}
    assert(world.has_group(key_of(group_param)) <==> known);
    kept_throughout(
        begun(request, world),
        replies,
        luck(),
        |s: Standing<GetMembers, Seq<UserInfoView>>|
            s.world == world && match s.outcome {
                Outcome::Ask(h) => h.group_param == group_param && match h.stage {
                    GetMembersStage::OpenDatabase | GetMembersStage::FindGroup => true,
                    _ => known,
                },
                Outcome::Done(Ok(_)) => known,
                Outcome::Done(Err(f)) => !known && f.status_code == 404,
            },
    );
}

/// The ids of the members of a group that exists are told, as the store lists them.
/// One that does not exist is not found. A service that fails is the only exception.
pub proof fn member_ids_of_known_group_alone_are_told(
    group_identifier: String,
    request: GroupMembersIds,
    world: World,
    replies: Seq<Reply>,
)
    requires
        call_ensures(fetch_group_members_ids, (group_identifier,), request),
        lucky(begun(request, world), replies),
    ensures
        request.group_identifier == group_identifier,
        request.stage is OpenDatabase,
        match served(begun(request, world), replies).outcome {
            Outcome::Ask(h) => forall|ids: Vec<i64>|
                h.stage is Members ==> #[trigger] h.next(Reply::Ids(Ok(ids))) == Outcome::<
                    GroupMembersIds,
                    Seq<i64>,
                >::Done(Ok(ids@)),
            Outcome::Done(Ok(_)) => world.has_group(GroupKey::Identifier(group_identifier)),
            Outcome::Done(Err(f)) => !world.has_group(GroupKey::Identifier(group_identifier))
                && f.status_code == 404,
        },
{
    let known = world.has_group(GroupKey::Identifier(group_identifier));
    kept_throughout(
        begun(request, world),
        replies,
        luck(),
        |s: Standing<GroupMembersIds, Seq<i64>>|
            s.world == world && match s.outcome {
                Outcome::Ask(h) => h.group_identifier == group_identifier && (h.stage is Members
                    ==> known),
                Outcome::Done(Ok(_)) => known,
                Outcome::Done(Err(f)) => !known && f.status_code == 404,
            },
    );
}

/// The ids of the members of a group are asked for in the same way on behalf of a user,
/// of the holder of a session token and of another service.
pub proof fn member_ids_are_asked_alike(
    group_identifier: String,
    claims: Claims,
    api_claims: APIClaims,
    isc_claims: ISCClaims,
    plain: GroupMembersIds,
    for_user: GroupMembersIds,
    for_token: GroupMembersIds,
    for_service: GroupMembersIds,
)
    requires
        call_ensures(fetch_group_members_ids, (group_identifier,), plain),
        call_ensures(get_group_members_ids_user_land, (group_identifier, claims), for_user),
        call_ensures(get_group_members_ids_api_land, (group_identifier, api_claims), for_token),
        call_ensures(get_group_members_ids, (group_identifier, isc_claims), for_service),
    ensures
        for_user == plain,
        for_token == plain,
        for_service == plain,
{
}

/// The groups of the holder of a token are told as they are, and they are a member or
/// an owner of a group if and only if its identifier is among them.
pub proof fn own_groups_are_told(
    claims: Claims,
    groups: GroupMemberships,
    groups_owned: GroupOwnerships,
    group_param: String,
    memberships: Vec<String>,
    ownerships: Vec<String>,
    standing: IsMemberResponse,
)
    requires
        call_ensures(get_group_memberships, (claims, groups), memberships),
        call_ensures(get_group_ownserships, (claims, groups_owned), ownerships),
        call_ensures(is_member, (group_param, groups, groups_owned), standing),
    ensures
        memberships == groups.0,
        ownerships == groups_owned.0,
        standing.is_member <==> exists|i: int|
            0 <= i < groups.0@.len() && (#[trigger] groups.0@[i])@ == group_param@,
        standing.is_owner <==> exists|i: int|
            0 <= i < groups_owned.0@.len() && (#[trigger] groups_owned.0@[i])@ == group_param@,
{
    assert forall|list: Seq<String>, text: Seq<char>| #[trigger]
        texts(list).contains(text) <==> exists|i: int|
            0 <= i < list.len() && (#[trigger] list[i])@ == text by {
        if exists|i: int| 0 <= i < list.len() && (#[trigger] list[i])@ == text {
            let i = choose|i: int| 0 <= i < list.len() && (#[trigger] list[i])@ == text;
            assert(texts(list)[i] == text);
        }
        if texts(list).contains(text) {
            let i = choose|i: int| 0 <= i < texts(list).len() && texts(list)[i] == text;
            assert(list[i]@ == text);
        }
    }
}

} // verus!
