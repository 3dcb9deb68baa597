//! Groups: how one is made, who is in it, and how its members are managed.

use crate::error::{
    Status, at, fail, failure, failure_is_reported, refusal, refusal_is_reported, refuse,
};
use crate::models::{
    APIClaims, Claims, CreateGroupRequest, Group, GroupKey, GroupMemberships, GroupOwnerships,
    ISCClaims, IsMemberResponse, Member, Members, NewGroup, StatusResponse, User,
    UserInfoResponse, UserInfoView,
};
use crate::outside::std_text::{integer_error, parse_i64};
use crate::protocol::{Handler, Need, NeedView, Outcome, Progress, Query, QueryView, Reply};
use crate::text::{
    contains_id, contains_text, copy_maybe, decimal, i64_value, integer_text, maybe_text,
    same_text, text_or_empty, text_or_none, texts,
};
use vstd::prelude::*;

verus! {

/// How a group is looked up that a request names: by id if the text writes a
/// number, otherwise by identifier.
pub open spec fn key_of(group_param: String) -> GroupKey {
    match i64_value(group_param@) {
        Some(id) => GroupKey::Id(id),
        None => GroupKey::Identifier(group_param),
    }
}

/// How a group is looked up that a request names.
pub fn group_key(group_param: &String) -> (r: GroupKey)
    ensures
        r == key_of(*group_param),
{
    match parse_i64(group_param.as_str()) {
        Ok(id) => GroupKey::Id(id),
        Err(_) => GroupKey::Identifier(group_param.clone()),
    }
}

/// The groups that the holder of a token is a member of.
pub fn get_group_memberships(claims: Claims, groups: GroupMemberships) -> (r: Vec<String>)
    ensures
        r == groups.0,
{
    groups.0
}

/// The groups that the holder of a token owns.
pub fn get_group_ownserships(claims: Claims, groups_owned: GroupOwnerships) -> (r: Vec<String>)
    ensures
        r == groups_owned.0,
{
    groups_owned.0
}

/// Whether the holder of a token is a member and whether they are an owner of a
/// group, by identifier.
pub fn is_member(
    group_param: String,
    groups: GroupMemberships,
    groups_owned: GroupOwnerships,
) -> (r: IsMemberResponse)
    ensures
        r.is_member == texts(groups.0@).contains(group_param@),
        r.is_owner == texts(groups_owned.0@).contains(group_param@),
{
    IsMemberResponse {
        is_member: contains_text(&groups.0, group_param.as_str()),
        is_owner: contains_text(&groups_owned.0, group_param.as_str()),
    }
}

/// The making of a group on its way.
pub struct CreateGroup {
    pub claims: Claims,
    pub request: CreateGroupRequest,
    pub stage: CreateGroupStage,
}

/// How far [`CreateGroup`] has come: what it waits for.
pub enum CreateGroupStage {
    OpenDatabase,
    OpenCache,
    FindGroup,
    Insert,
    AddMember { group: Group, user: i64 },
    AddOwner { group: Group, user: i64 },
    Forget { group: Group },
}

/// Starts the making of a group: unless the identifier is taken, the group is
/// stored, the holder of the token becomes a member and an owner of it, and the
/// cached list of their groups is forgotten.
pub fn create_group(claims: Claims, request: CreateGroupRequest) -> (r: CreateGroup)
    ensures
        r == (CreateGroup { claims, request, stage: CreateGroupStage::OpenDatabase }),
{
    CreateGroup { claims, request, stage: CreateGroupStage::OpenDatabase }
}

impl Handler for CreateGroup {
    type Answer = Group;

    open spec fn asks(&self) -> NeedView {
        match self.stage {
            CreateGroupStage::OpenDatabase => NeedView::Query(QueryView::OpenDatabase),
            CreateGroupStage::OpenCache => NeedView::Query(QueryView::OpenCache),
            CreateGroupStage::FindGroup => NeedView::Query(
                QueryView::MaybeGroup(GroupKey::Identifier(self.request.id)),
            ),
            CreateGroupStage::Insert => NeedView::Query(
                QueryView::InsertGroup(
                    NewGroup {
                        identifier: self.request.id,
                        disabled: false,
                        short_text: self.request.description,
                    },
                ),
            ),
            CreateGroupStage::AddMember { group, user } => NeedView::Query(
                QueryView::AddMember { user, group: group.id },
            ),
            CreateGroupStage::AddOwner { group, user } => NeedView::Query(
                QueryView::AddOwner { user, group: group.id },
            ),
            CreateGroupStage::Forget { .. } => NeedView::Query(
                QueryView::CacheDrop("user_groups:"@ + self.claims.user_id@),
            ),
        }
    }

    open spec fn next(self, reply: Reply) -> Outcome<Self, Group> {
        match (self.stage, reply) {
            (CreateGroupStage::OpenDatabase, Reply::Done(Ok(_))) => Outcome::Ask(
                CreateGroup { stage: CreateGroupStage::OpenCache, ..self },
            ),
            (CreateGroupStage::OpenDatabase, Reply::Done(Err(e))) => Outcome::Done(
                Err(
                    failure(
                        Status::ServiceUnavailable,
                        at("create_group"@, "failed to get DB connection"@),
                        e@,
                    ),
                ),
            ),
            (CreateGroupStage::OpenCache, Reply::Done(Ok(_))) => Outcome::Ask(
                CreateGroup { stage: CreateGroupStage::FindGroup, ..self },
            ),
            (CreateGroupStage::OpenCache, Reply::Done(Err(e))) => Outcome::Done(
                Err(
                    failure(
                        Status::ServiceUnavailable,
                        at("create_group"@, "failed to get Redis connection"@),
                        e@,
                    ),
                ),
            ),
            (CreateGroupStage::FindGroup, Reply::MaybeGroup(Ok(Some(_)))) => Outcome::Done(
                Err(
                    refusal(
                        Status::Conflict,
                        at(
                            "create_group"@,
                            "a group with identifier '"@ + self.request.id@ + "' already exists"@,
                        ),
                    ),
                ),
            ),
            (CreateGroupStage::FindGroup, Reply::MaybeGroup(Ok(None))) => Outcome::Ask(
                CreateGroup { stage: CreateGroupStage::Insert, ..self },
            ),
            (CreateGroupStage::FindGroup, Reply::MaybeGroup(Err(e))) => Outcome::Done(
                Err(
                    failure(
                        Status::InternalServerError,
                        at(
                            "create_group"@,
                            "checking if group '"@ + self.request.id@ + "' already exists"@,
                        ),
                        e@,
                    ),
                ),
            ),
            (CreateGroupStage::Insert, Reply::Group(Ok(group))) => match i64_value(
                self.claims.user_id@,
            ) {
                Some(user) => Outcome::Ask(
                    CreateGroup { stage: CreateGroupStage::AddMember { group, user }, ..self },
                ),
                None => Outcome::Done(
                    Err(
                        failure(
                            Status::InternalServerError,
                            at(
                                "create_group"@,
                                "parsing claims.user_id '"@ + self.claims.user_id@ + "' as i64"@,
                            ),
                            integer_error(self.claims.user_id@),
                        ),
                    ),
                ),
            },
            (CreateGroupStage::Insert, Reply::Group(Err(e))) => Outcome::Done(
                Err(
                    failure(
                        Status::InternalServerError,
                        at("create_group"@, "inserting new group '"@ + self.request.id@ + "'"@),
                        e@,
                    ),
                ),
            ),
            (CreateGroupStage::AddMember { group, user }, Reply::Rows(Ok(_))) => Outcome::Ask(
                CreateGroup { stage: CreateGroupStage::AddOwner { group, user }, ..self },
            ),
            (CreateGroupStage::AddMember { group, user }, Reply::Rows(Err(e))) => Outcome::Done(
                Err(
                    failure(
                        Status::InternalServerError,
                        at(
                            "create_group"@,
                            "adding user "@ + decimal(user as int) + " to group id="@
                                + decimal(group.id as int),
                        ),
                        e@,
                    ),
                ),
            ),
            (CreateGroupStage::AddOwner { group, .. }, Reply::Rows(Ok(_))) => Outcome::Ask(
                CreateGroup { stage: CreateGroupStage::Forget { group }, ..self },
            ),
            (CreateGroupStage::AddOwner { group, user }, Reply::Rows(Err(e))) => Outcome::Done(
                Err(
                    failure(
                        Status::InternalServerError,
                        at(
                            "create_group"@,
                            "adding user "@ + decimal(user as int) + " as owner of group id="@
                                + decimal(group.id as int),
                        ),
                        e@,
                    ),
                ),
            ),
            (CreateGroupStage::Forget { group }, Reply::Done(Ok(_))) => Outcome::Done(Ok(group)),
            (CreateGroupStage::Forget { .. }, Reply::Done(Err(e))) => Outcome::Done(
                Err(
                    failure(
                        Status::InternalServerError,
                        at(
                            "create_group"@,
                            "clearing cached group list for user "@ + self.claims.user_id@,
                        ),
                        e@,
                    ),
                ),
            ),
            _ => Outcome::Ask(self),
        }
    }

    open spec fn rank(&self) -> nat {
        match self.stage {
            CreateGroupStage::OpenDatabase => 7,
            CreateGroupStage::OpenCache => 6,
            CreateGroupStage::FindGroup => 5,
            CreateGroupStage::Insert => 4,
            CreateGroupStage::AddMember { .. } => 3,
            CreateGroupStage::AddOwner { .. } => 2,
            CreateGroupStage::Forget { .. } => 1,
        }
    }

    open spec fn speaks_as(name: Seq<char>) -> bool {
        name == "create_group"@
    }

    proof fn moves(self, reply: Reply) {
    }

    proof fn ignores(self, reply: Reply) {
    }

    proof fn reports(self, reply: Reply) {
        broadcast use refusal_is_reported, failure_is_reported;

        assert(Self::speaks_as("create_group"@));
    }

    fn need(&self) -> (r: Need) {
        match &self.stage {
            CreateGroupStage::OpenDatabase => Need::Query(Query::OpenDatabase),
            CreateGroupStage::OpenCache => Need::Query(Query::OpenCache),
            CreateGroupStage::FindGroup => Need::Query(
                Query::MaybeGroup(GroupKey::Identifier(self.request.id.clone())),
            ),
            CreateGroupStage::Insert => Need::Query(
                Query::InsertGroup(
                    NewGroup {
                        identifier: self.request.id.clone(),
                        disabled: false,
                        short_text: copy_maybe(&self.request.description),
                    },
                ),
            ),
            CreateGroupStage::AddMember { group, user } => Need::Query(
                Query::AddMember { user: *user, group: group.id },
            ),
            CreateGroupStage::AddOwner { group, user } => Need::Query(
                Query::AddOwner { user: *user, group: group.id },
            ),
            CreateGroupStage::Forget { .. } => Need::Query(
                Query::CacheDrop("user_groups:".to_owned().concat(self.claims.user_id.as_str())),
            ),
        }
    }

    fn resume(self, reply: Reply) -> (r: Progress<Self, Self::Answer>) {
        match (self.stage, reply) {
            (CreateGroupStage::OpenDatabase, Reply::Done(Ok(_))) => Progress::Ask(
                CreateGroup {
                    claims: self.claims,
                    request: self.request,
                    stage: CreateGroupStage::OpenCache,
                },
            ),
            (CreateGroupStage::OpenDatabase, Reply::Done(Err(e))) => Progress::Done(
                Err(
                    fail(
                        Status::ServiceUnavailable,
                        "create_group",
                        "failed to get DB connection",
                        e.as_str(),
                    ),
                ),
            ),
            (CreateGroupStage::OpenCache, Reply::Done(Ok(_))) => Progress::Ask(
                CreateGroup {
                    claims: self.claims,
                    request: self.request,
                    stage: CreateGroupStage::FindGroup,
                },
            ),
            (CreateGroupStage::OpenCache, Reply::Done(Err(e))) => Progress::Done(
                Err(
                    fail(
                        Status::ServiceUnavailable,
                        "create_group",
                        "failed to get Redis connection",
                        e.as_str(),
                    ),
                ),
            ),
            (CreateGroupStage::FindGroup, Reply::MaybeGroup(Ok(Some(_)))) => Progress::Done(
                Err(
                    refuse(
                        Status::Conflict,
                        "create_group",
                        "a group with identifier '".to_owned()
                            .concat(self.request.id.as_str())
                            .concat("' already exists").as_str(),
                    ),
                ),
            ),
            (CreateGroupStage::FindGroup, Reply::MaybeGroup(Ok(None))) => Progress::Ask(
                CreateGroup {
                    claims: self.claims,
                    request: self.request,
                    stage: CreateGroupStage::Insert,
                },
            ),
            (CreateGroupStage::FindGroup, Reply::MaybeGroup(Err(e))) => Progress::Done(
                Err(
                    fail(
                        Status::InternalServerError,
                        "create_group",
                        "checking if group '".to_owned()
                            .concat(self.request.id.as_str())
                            .concat("' already exists").as_str(),
                        e.as_str(),
                    ),
                ),
            ),
            (CreateGroupStage::Insert, Reply::Group(Ok(group))) => match parse_i64(
                self.claims.user_id.as_str(),
            ) {
                Ok(user) => Progress::Ask(
                    CreateGroup {
                        claims: self.claims,
                        request: self.request,
                        stage: CreateGroupStage::AddMember { group, user },
                    },
                ),
                Err(e) => Progress::Done(
                    Err(
                        fail(
                            Status::InternalServerError,
                            "create_group",
                            "parsing claims.user_id '".to_owned()
                                .concat(self.claims.user_id.as_str())
                                .concat("' as i64").as_str(),
                            e.as_str(),
                        ),
                    ),
                ),
            },
            (CreateGroupStage::Insert, Reply::Group(Err(e))) => Progress::Done(
                Err(
                    fail(
                        Status::InternalServerError,
                        "create_group",
                        "inserting new group '".to_owned()
                            .concat(self.request.id.as_str())
                            .concat("'").as_str(),
                        e.as_str(),
                    ),
                ),
            ),
            (CreateGroupStage::AddMember { group, user }, Reply::Rows(Ok(_))) => Progress::Ask(
                CreateGroup {
                    claims: self.claims,
                    request: self.request,
                    stage: CreateGroupStage::AddOwner { group, user },
                },
            ),
            (CreateGroupStage::AddMember { group, user }, Reply::Rows(Err(e))) => Progress::Done(
                Err(
                    fail(
                        Status::InternalServerError,
                        "create_group",
                        "adding user ".to_owned()
                            .concat(integer_text(user).as_str())
                            .concat(" to group id=")
                            .concat(integer_text(group.id).as_str()).as_str(),
                        e.as_str(),
                    ),
                ),
            ),
            (CreateGroupStage::AddOwner { group, .. }, Reply::Rows(Ok(_))) => Progress::Ask(
                CreateGroup {
                    claims: self.claims,
                    request: self.request,
                    stage: CreateGroupStage::Forget { group },
                },
            ),
            (CreateGroupStage::AddOwner { group, user }, Reply::Rows(Err(e))) => Progress::Done(
                Err(
                    fail(
                        Status::InternalServerError,
                        "create_group",
                        "adding user ".to_owned()
                            .concat(integer_text(user).as_str())
                            .concat(" as owner of group id=")
                            .concat(integer_text(group.id).as_str()).as_str(),
                        e.as_str(),
                    ),
                ),
            ),
            (CreateGroupStage::Forget { group }, Reply::Done(Ok(_))) => Progress::Done(Ok(group)),
            (CreateGroupStage::Forget { .. }, Reply::Done(Err(e))) => Progress::Done(
                Err(
                    fail(
                        Status::InternalServerError,
                        "create_group",
                        "clearing cached group list for user ".to_owned().concat(
                            self.claims.user_id.as_str(),
                        ).as_str(),
                        e.as_str(),
                    ),
                ),
            ),
            (stage, _) => Progress::Ask(
                CreateGroup { claims: self.claims, request: self.request, stage },
            ),
        }
    }
}

/// A member of a group with the given owners, as told to a client.
pub open spec fn member_info(member: Member, owners: Seq<i64>) -> UserInfoView {
    UserInfoView {
        first_name: text_or_empty(member.first_name),
        last_name: text_or_empty(member.last_name),
        middle_name: maybe_text(member.middle_name),
        pk: member.id,
        is_admin: owners.contains(member.id),
        email_id: member.email_id@,
    }
}

/// The members of a group with the given owners, as told to a client.
pub open spec fn members_info(members: Seq<Member>, owners: Seq<i64>) -> Seq<UserInfoView> {
    members.map_values(|m: Member| member_info(m, owners))
}

/// Tells a client of the members of a group. A missing name is empty, and a
/// member is an administrator if they are among the owners.
pub fn list_members(members: &Vec<Member>, owners: &Vec<i64>) -> (r: Members)
    ensures
        r@ == members_info(members@, owners@),
{
    let mut users: Vec<UserInfoResponse> = Vec::new();
    let mut i: usize = 0;
    while i < members.len()
        invariant
            i <= members.len(),
            users@.len() == i,
            forall|j: int|
                0 <= j < i ==> (#[trigger] users@[j])@ == member_info(members@[j], owners@),
        decreases members.len() - i,
    {
        let m = &members[i];
        users.push(
            UserInfoResponse {
                first_name: text_or_none(&m.first_name),
                last_name: text_or_none(&m.last_name),
                middle_name: copy_maybe(&m.middle_name),
                pk: m.id,
                is_admin: contains_id(owners, m.id),
                email_id: m.email_id.clone(),
            },
        );
        i = i + 1;
    }
    let r = Members { users };
    assert(r@ =~= members_info(members@, owners@));
    r
}

/// A question for the members of a group on its way.
pub struct GetMembers {
    pub group_param: String,
    pub stage: GetMembersStage,
}

/// How far [`GetMembers`] has come: what it waits for.
pub enum GetMembersStage {
    OpenDatabase,
    FindGroup,
    Members { group: i64 },
    Owners { group: i64, members: Vec<Member> },
}

/// Starts a question for the members of a group, which is named by id or by
/// identifier.
pub fn get_members(group_param: String) -> (r: GetMembers)
    ensures
        r == (GetMembers { group_param, stage: GetMembersStage::OpenDatabase }),
{
    GetMembers { group_param, stage: GetMembersStage::OpenDatabase }
}

impl Handler for GetMembers {
    type Answer = Members;

    open spec fn asks(&self) -> NeedView {
        match self.stage {
            GetMembersStage::OpenDatabase => NeedView::Query(QueryView::OpenDatabase),
            GetMembersStage::FindGroup => NeedView::Query(
                QueryView::MaybeGroupId(key_of(self.group_param)),
            ),
            GetMembersStage::Members { group } => NeedView::Query(QueryView::MembersOf(group)),
            GetMembersStage::Owners { group, .. } => NeedView::Query(QueryView::OwnersOf(group)),
        }
    }

    open spec fn next(self, reply: Reply) -> Outcome<Self, Seq<UserInfoView>> {
        match (self.stage, reply) {
            (GetMembersStage::OpenDatabase, Reply::Done(Ok(_))) => Outcome::Ask(
                GetMembers { stage: GetMembersStage::FindGroup, ..self },
            ),
            (GetMembersStage::OpenDatabase, Reply::Done(Err(e))) => Outcome::Done(
                Err(
                    failure(
                        Status::ServiceUnavailable,
                        at("get_members"@, "failed to get DB connection"@),
                        e@,
                    ),
                ),
            ),
            (GetMembersStage::FindGroup, Reply::MaybeId(Ok(Some(group)))) => Outcome::Ask(
                GetMembers { stage: GetMembersStage::Members { group }, ..self },
            ),
            (GetMembersStage::FindGroup, Reply::MaybeId(Ok(None))) => Outcome::Done(
                Err(
                    refusal(
                        Status::NotFound,
                        at("get_members"@, "group '"@ + self.group_param@ + "' not found"@),
                    ),
                ),
            ),
            (GetMembersStage::FindGroup, Reply::MaybeId(Err(e))) => Outcome::Done(
                Err(
                    failure(
                        Status::InternalServerError,
                        at("get_members"@, "looking up group '"@ + self.group_param@ + "'"@),
                        e@,
                    ),
                ),
            ),
            (GetMembersStage::Members { group }, Reply::Members(Ok(members))) => Outcome::Ask(
                GetMembers { stage: GetMembersStage::Owners { group, members }, ..self },
            ),
            (GetMembersStage::Members { group }, Reply::Members(Err(e))) => Outcome::Done(
                Err(
                    failure(
                        Status::InternalServerError,
                        at("get_members"@, "loading users for group id="@ + decimal(group as int)),
                        e@,
                    ),
                ),
            ),
            (GetMembersStage::Owners { members, .. }, Reply::Ids(Ok(owners))) => Outcome::Done(
                Ok(members_info(members@, owners@)),
            ),
            (GetMembersStage::Owners { group, .. }, Reply::Ids(Err(e))) => Outcome::Done(
                Err(
                    failure(
                        Status::InternalServerError,
                        at("get_members"@, "loading owners for group id="@ + decimal(group as int)),
                        e@,
                    ),
                ),
            ),
            _ => Outcome::Ask(self),
        }
    }

    open spec fn rank(&self) -> nat {
        match self.stage {
            GetMembersStage::OpenDatabase => 4,
            GetMembersStage::FindGroup => 3,
            GetMembersStage::Members { .. } => 2,
            GetMembersStage::Owners { .. } => 1,
        }
    }

    open spec fn speaks_as(name: Seq<char>) -> bool {
        name == "get_members"@
    }

    proof fn moves(self, reply: Reply) {
    }

    proof fn ignores(self, reply: Reply) {
    }

    proof fn reports(self, reply: Reply) {
        broadcast use refusal_is_reported, failure_is_reported;

        assert(Self::speaks_as("get_members"@));
    }

    fn need(&self) -> (r: Need) {
        match &self.stage {
            GetMembersStage::OpenDatabase => Need::Query(Query::OpenDatabase),
            GetMembersStage::FindGroup => Need::Query(
                Query::MaybeGroupId(group_key(&self.group_param)),
            ),
            GetMembersStage::Members { group } => Need::Query(Query::MembersOf(*group)),
            GetMembersStage::Owners { group, .. } => Need::Query(Query::OwnersOf(*group)),
        }
    }

    fn resume(self, reply: Reply) -> (r: Progress<Self, Self::Answer>) {
        match (self.stage, reply) {
            (GetMembersStage::OpenDatabase, Reply::Done(Ok(_))) => Progress::Ask(
                GetMembers { group_param: self.group_param, stage: GetMembersStage::FindGroup },
            ),
            (GetMembersStage::OpenDatabase, Reply::Done(Err(e))) => Progress::Done(
                Err(
                    fail(
                        Status::ServiceUnavailable,
                        "get_members",
                        "failed to get DB connection",
                        e.as_str(),
                    ),
                ),
            ),
            (GetMembersStage::FindGroup, Reply::MaybeId(Ok(Some(group)))) => Progress::Ask(
                GetMembers {
                    group_param: self.group_param,
                    stage: GetMembersStage::Members { group },
                },
            ),
            (GetMembersStage::FindGroup, Reply::MaybeId(Ok(None))) => Progress::Done(
                Err(
                    refuse(
                        Status::NotFound,
                        "get_members",
                        "group '".to_owned()
                            .concat(self.group_param.as_str())
                            .concat("' not found").as_str(),
                    ),
                ),
            ),
            (GetMembersStage::FindGroup, Reply::MaybeId(Err(e))) => Progress::Done(
                Err(
                    fail(
                        Status::InternalServerError,
                        "get_members",
                        "looking up group '".to_owned()
                            .concat(self.group_param.as_str())
                            .concat("'").as_str(),
                        e.as_str(),
                    ),
                ),
            ),
            (GetMembersStage::Members { group }, Reply::Members(Ok(members))) => Progress::Ask(
                GetMembers {
                    group_param: self.group_param,
                    stage: GetMembersStage::Owners { group, members },
                },
            ),
            (GetMembersStage::Members { group }, Reply::Members(Err(e))) => Progress::Done(
                Err(
                    fail(
                        Status::InternalServerError,
                        "get_members",
                        "loading users for group id=".to_owned().concat(
                            integer_text(group).as_str(),
                        ).as_str(),
                        e.as_str(),
                    ),
                ),
            ),
            (GetMembersStage::Owners { members, .. }, Reply::Ids(Ok(owners))) => Progress::Done(
                Ok(list_members(&members, &owners)),
            ),
            (GetMembersStage::Owners { group, .. }, Reply::Ids(Err(e))) => Progress::Done(
                Err(
                    fail(
                        Status::InternalServerError,
                        "get_members",
                        "loading owners for group id=".to_owned().concat(
                            integer_text(group).as_str(),
                        ).as_str(),
                        e.as_str(),
                    ),
                ),
            ),
            (stage, _) => Progress::Ask(GetMembers { group_param: self.group_param, stage }),
        }
    }
}

/// A question for the ids of the members of a group on its way.
pub struct GroupMembersIds {
    pub group_identifier: String,
    pub stage: GroupMembersIdsStage,
}

/// How far [`GroupMembersIds`] has come: what it waits for.
pub enum GroupMembersIdsStage {
    OpenDatabase,
    FindGroup,
    Members { group: i64 },
}

/// Starts a question for the ids of the members of a group, which is named by
/// identifier.
pub fn fetch_group_members_ids(group_identifier: String) -> (r: GroupMembersIds)
    ensures
        r == (GroupMembersIds { group_identifier, stage: GroupMembersIdsStage::OpenDatabase }),
{
    GroupMembersIds { group_identifier, stage: GroupMembersIdsStage::OpenDatabase }
}

/// Starts the question that [`fetch_group_members_ids`] is, for the holder of a session token.
pub fn get_group_members_ids_api_land(
    group_identifier: String,
    _claims: APIClaims,
) -> (r: GroupMembersIds)
    ensures
        r == (GroupMembersIds { group_identifier, stage: GroupMembersIdsStage::OpenDatabase }),
{
    fetch_group_members_ids(group_identifier)
}

/// Starts the question that [`fetch_group_members_ids`] is, for a user.
pub fn get_group_members_ids_user_land(
    group_identifier: String,
    _claims: Claims,
) -> (r: GroupMembersIds)
    ensures
        r == (GroupMembersIds { group_identifier, stage: GroupMembersIdsStage::OpenDatabase }),
{
    fetch_group_members_ids(group_identifier)
}

/// Starts the question that [`fetch_group_members_ids`] is, for another service.
pub fn get_group_members_ids(group_identifier: String, _claims: ISCClaims) -> (r: GroupMembersIds)
    ensures
        r == (GroupMembersIds { group_identifier, stage: GroupMembersIdsStage::OpenDatabase }),
{
    fetch_group_members_ids(group_identifier)
}

impl Handler for GroupMembersIds {
    type Answer = Vec<i64>;

    open spec fn asks(&self) -> NeedView {
        match self.stage {
            GroupMembersIdsStage::OpenDatabase => NeedView::Query(QueryView::OpenDatabase),
            GroupMembersIdsStage::FindGroup => NeedView::Query(
                QueryView::MaybeGroupId(GroupKey::Identifier(self.group_identifier)),
            ),
            GroupMembersIdsStage::Members { group } => NeedView::Query(
                QueryView::MemberIdsOf(group),
            ),
        }
    }

    open spec fn next(self, reply: Reply) -> Outcome<Self, Seq<i64>> {
        match (self.stage, reply) {
            (GroupMembersIdsStage::OpenDatabase, Reply::Done(Ok(_))) => Outcome::Ask(
                GroupMembersIds { stage: GroupMembersIdsStage::FindGroup, ..self },
            ),
            (GroupMembersIdsStage::OpenDatabase, Reply::Done(Err(e))) => Outcome::Done(
                Err(
                    failure(
                        Status::ServiceUnavailable,
                        at("fetch_group_members_ids"@, "failed to get DB connection"@),
                        e@,
                    ),
                ),
            ),
            (GroupMembersIdsStage::FindGroup, Reply::MaybeId(Ok(Some(group)))) => Outcome::Ask(
                GroupMembersIds { stage: GroupMembersIdsStage::Members { group }, ..self },
            ),
            (GroupMembersIdsStage::FindGroup, Reply::MaybeId(Ok(None))) => Outcome::Done(
                Err(
                    refusal(
                        Status::NotFound,
                        at(
                            "fetch_group_members_ids"@,
                            "group '"@ + self.group_identifier@ + "' not found"@,
                        ),
                    ),
                ),
            ),
            (GroupMembersIdsStage::FindGroup, Reply::MaybeId(Err(e))) => Outcome::Done(
                Err(
                    failure(
                        Status::InternalServerError,
                        at(
                            "fetch_group_members_ids"@,
                            "looking up group '"@ + self.group_identifier@ + "'"@,
                        ),
                        e@,
                    ),
                ),
            ),
            (GroupMembersIdsStage::Members { .. }, Reply::Ids(Ok(ids))) => Outcome::Done(Ok(ids@)),
            (GroupMembersIdsStage::Members { group }, Reply::Ids(Err(e))) => Outcome::Done(
                Err(
                    failure(
                        Status::InternalServerError,
                        at(
                            "fetch_group_members_ids"@,
                            "loading user ids for group id="@ + decimal(group as int),
                        ),
                        e@,
                    ),
                ),
            ),
            _ => Outcome::Ask(self),
        }
    }

    open spec fn rank(&self) -> nat {
        match self.stage {
            GroupMembersIdsStage::OpenDatabase => 3,
            GroupMembersIdsStage::FindGroup => 2,
            GroupMembersIdsStage::Members { .. } => 1,
        }
    }

    open spec fn speaks_as(name: Seq<char>) -> bool {
        name == "fetch_group_members_ids"@
    }

    proof fn moves(self, reply: Reply) {
    }

    proof fn ignores(self, reply: Reply) {
    }

    proof fn reports(self, reply: Reply) {
        broadcast use refusal_is_reported, failure_is_reported;

        assert(Self::speaks_as("fetch_group_members_ids"@));
    }

    fn need(&self) -> (r: Need) {
        match &self.stage {
            GroupMembersIdsStage::OpenDatabase => Need::Query(Query::OpenDatabase),
            GroupMembersIdsStage::FindGroup => Need::Query(
                Query::MaybeGroupId(GroupKey::Identifier(self.group_identifier.clone())),
            ),
            GroupMembersIdsStage::Members { group } => Need::Query(Query::MemberIdsOf(*group)),
        }
    }

    fn resume(self, reply: Reply) -> (r: Progress<Self, Self::Answer>) {
        match (self.stage, reply) {
            (GroupMembersIdsStage::OpenDatabase, Reply::Done(Ok(_))) => Progress::Ask(
                GroupMembersIds {
                    group_identifier: self.group_identifier,
                    stage: GroupMembersIdsStage::FindGroup,
                },
            ),
            (GroupMembersIdsStage::OpenDatabase, Reply::Done(Err(e))) => Progress::Done(
                Err(
                    fail(
                        Status::ServiceUnavailable,
                        "fetch_group_members_ids",
                        "failed to get DB connection",
                        e.as_str(),
                    ),
                ),
            ),
            (GroupMembersIdsStage::FindGroup, Reply::MaybeId(Ok(Some(group)))) => Progress::Ask(
                GroupMembersIds {
                    group_identifier: self.group_identifier,
                    stage: GroupMembersIdsStage::Members { group },
                },
            ),
            (GroupMembersIdsStage::FindGroup, Reply::MaybeId(Ok(None))) => Progress::Done(
                Err(
                    refuse(
                        Status::NotFound,
                        "fetch_group_members_ids",
                        "group '".to_owned()
                            .concat(self.group_identifier.as_str())
                            .concat("' not found").as_str(),
                    ),
                ),
            ),
            (GroupMembersIdsStage::FindGroup, Reply::MaybeId(Err(e))) => Progress::Done(
                Err(
                    fail(
                        Status::InternalServerError,
                        "fetch_group_members_ids",
                        "looking up group '".to_owned()
                            .concat(self.group_identifier.as_str())
                            .concat("'").as_str(),
                        e.as_str(),
                    ),
                ),
            ),
            (GroupMembersIdsStage::Members { .. }, Reply::Ids(Ok(ids))) => Progress::Done(Ok(ids)),
            (GroupMembersIdsStage::Members { group }, Reply::Ids(Err(e))) => Progress::Done(
                Err(
                    fail(
                        Status::InternalServerError,
                        "fetch_group_members_ids",
                        "loading user ids for group id=".to_owned().concat(
                            integer_text(group).as_str(),
                        ).as_str(),
                        e.as_str(),
                    ),
                ),
            ),
            (stage, _) => Progress::Ask(
                GroupMembersIds { group_identifier: self.group_identifier, stage },
            ),
        }
    }
}

/// A change of membership on its way.
pub struct ManageMembership {
    pub group_param: String,
    pub user_id: String,
    pub action: String,
    pub stage: ManageMembershipStage,
}

/// How far [`ManageMembership`] has come: what it waits for.
pub enum ManageMembershipStage {
    OpenDatabase,
    FindGroup,
    FindUser { group: Group },
    DemoteOwner { group: Group, user: User },
    EnrolMember { group: Group, user: User },
    EnrolAdmin { group: Group, user: User },
    PromoteAdmin { group: Group, user: User },
    DropMember { group: Group, user: User },
    DropOwner { group: Group, user: User },
}

/// Starts a change of membership: the user with an email address is made a member,
/// but no owner, of a group, or a member and an owner, or neither.
pub fn manage_membership(
    group_param: String,
    user_id: String,
    action: String,
) -> (r: ManageMembership)
    ensures
        r == (
            ManageMembership {
                group_param,
                user_id,
                action,
                stage: ManageMembershipStage::OpenDatabase,
            }
        ),
{
    ManageMembership { group_param, user_id, action, stage: ManageMembershipStage::OpenDatabase }
}

impl Handler for ManageMembership {
    type Answer = StatusResponse;

    open spec fn asks(&self) -> NeedView {
        match self.stage {
            ManageMembershipStage::OpenDatabase => NeedView::Query(QueryView::OpenDatabase),
            ManageMembershipStage::FindGroup => NeedView::Query(
                QueryView::FindGroup(key_of(self.group_param)),
            ),
            ManageMembershipStage::FindUser { .. } => NeedView::Query(
                QueryView::UserByEmail(self.user_id@),
            ),
            ManageMembershipStage::DemoteOwner { group, user } => NeedView::Query(
                QueryView::RemoveOwner { user: user.id, group: group.id },
            ),
            ManageMembershipStage::EnrolMember { group, user } => NeedView::Query(
                QueryView::AddMember { user: user.id, group: group.id },
            ),
            ManageMembershipStage::EnrolAdmin { group, user } => NeedView::Query(
                QueryView::AddMember { user: user.id, group: group.id },
            ),
            ManageMembershipStage::PromoteAdmin { group, user } => NeedView::Query(
                QueryView::AddOwner { user: user.id, group: group.id },
            ),
            ManageMembershipStage::DropMember { group, user } => NeedView::Query(
                QueryView::RemoveMember { user: user.id, group: group.id },
            ),
            ManageMembershipStage::DropOwner { group, user } => NeedView::Query(
                QueryView::RemoveOwner { user: user.id, group: group.id },
            ),
        }
    }

    open spec fn next(self, reply: Reply) -> Outcome<Self, Seq<char>> {
        match (self.stage, reply) {
            (ManageMembershipStage::OpenDatabase, Reply::Done(Ok(_))) => Outcome::Ask(
                ManageMembership { stage: ManageMembershipStage::FindGroup, ..self },
            ),
            (ManageMembershipStage::OpenDatabase, Reply::Done(Err(e))) => Outcome::Done(
                Err(
                    failure(
                        Status::ServiceUnavailable,
                        at("manage_membership"@, "failed to get DB connection"@),
                        e@,
                    ),
                ),
            ),
            (ManageMembershipStage::FindGroup, Reply::Group(Ok(group))) => Outcome::Ask(
                ManageMembership { stage: ManageMembershipStage::FindUser { group }, ..self },
            ),
            (ManageMembershipStage::FindGroup, Reply::Group(Err(e))) => Outcome::Done(
                Err(
                    failure(
                        Status::NotFound,
                        at("manage_membership"@, "group '"@ + self.group_param@ + "' not found"@),
                        e@,
                    ),
                ),
            ),
            (
                ManageMembershipStage::FindUser { group },
                Reply::User(Ok(user)),
            ) => if self.action@ == "add-member"@ {
                Outcome::Ask(
                    ManageMembership {
                        stage: ManageMembershipStage::DemoteOwner { group, user },
                        ..self
                    },
                )
            } else {
                if self.action@ == "add-admin"@ {
                    Outcome::Ask(
                        ManageMembership {
                            stage: ManageMembershipStage::EnrolAdmin { group, user },
                            ..self
                        },
                    )
                } else {
                    if self.action@ == "remove"@ {
                        Outcome::Ask(
                            ManageMembership {
                                stage: ManageMembershipStage::DropMember { group, user },
                                ..self
                            },
                        )
                    } else {
                        Outcome::Done(
                            Err(
                                refusal(
                                    Status::BadRequest,
                                    at(
                                        "manage_membership"@,
                                        "unknown action '"@ + self.action@
                                            + "' (expected add-member, add-admin, or remove)"@,
                                    ),
                                ),
                            ),
                        )
                    }
                }
            },
            (ManageMembershipStage::FindUser { .. }, Reply::User(Err(e))) => Outcome::Done(
                Err(
                    failure(
                        Status::NotFound,
                        at("manage_membership"@, "user '"@ + self.user_id@ + "' not found"@),
                        e@,
                    ),
                ),
            ),
            (
                ManageMembershipStage::DemoteOwner { group, user },
                Reply::Rows(Ok(_)),
            ) => Outcome::Ask(
                ManageMembership {
                    stage: ManageMembershipStage::EnrolMember { group, user },
                    ..self
                },
            ),
            (
                ManageMembershipStage::DemoteOwner { group, user },
                Reply::Rows(Err(e)),
            ) => Outcome::Done(
                Err(
                    failure(
                        Status::InternalServerError,
                        at(
                            "manage_membership"@,
                            "removing user "@ + decimal(user.id as int) + " from owners of group "@
                                + decimal(group.id as int),
                        ),
                        e@,
                    ),
                ),
            ),
            (ManageMembershipStage::EnrolMember { .. }, Reply::Rows(Ok(_))) => Outcome::Done(
                Ok("success"@),
            ),
            (
                ManageMembershipStage::EnrolMember { group, user },
                Reply::Rows(Err(e)),
            ) => Outcome::Done(
                Err(
                    failure(
                        Status::InternalServerError,
                        at(
                            "manage_membership"@,
                            "adding user "@ + decimal(user.id as int) + " as member of group "@
                                + decimal(group.id as int),
                        ),
                        e@,
                    ),
                ),
            ),
            (ManageMembershipStage::EnrolAdmin { group, user }, Reply::Rows(Ok(_))) => Outcome::Ask(
                ManageMembership {
                    stage: ManageMembershipStage::PromoteAdmin { group, user },
                    ..self
                },
            ),
            (
                ManageMembershipStage::EnrolAdmin { group, user },
                Reply::Rows(Err(e)),
            ) => Outcome::Done(
                Err(
                    failure(
                        Status::InternalServerError,
                        at(
                            "manage_membership"@,
                            "adding user "@ + decimal(user.id as int) + " as member of group "@
                                + decimal(group.id as int),
                        ),
                        e@,
                    ),
                ),
            ),
            (ManageMembershipStage::PromoteAdmin { .. }, Reply::Rows(Ok(_))) => Outcome::Done(
                Ok("success"@),
            ),
            (
                ManageMembershipStage::PromoteAdmin { group, user },
                Reply::Rows(Err(e)),
            ) => Outcome::Done(
                Err(
                    failure(
                        Status::InternalServerError,
                        at(
                            "manage_membership"@,
                            "adding user "@ + decimal(user.id as int) + " as owner of group "@
                                + decimal(group.id as int),
                        ),
                        e@,
                    ),
                ),
            ),
            (ManageMembershipStage::DropMember { group, user }, Reply::Rows(Ok(_))) => Outcome::Ask(
                ManageMembership {
                    stage: ManageMembershipStage::DropOwner { group, user },
                    ..self
                },
            ),
            (
                ManageMembershipStage::DropMember { group, user },
                Reply::Rows(Err(e)),
            ) => Outcome::Done(
                Err(
                    failure(
                        Status::InternalServerError,
                        at(
                            "manage_membership"@,
                            "removing user "@ + decimal(user.id as int) + " from members of group "@
                                + decimal(group.id as int),
                        ),
                        e@,
                    ),
                ),
            ),
            (ManageMembershipStage::DropOwner { .. }, Reply::Rows(Ok(_))) => Outcome::Done(
                Ok("success"@),
            ),
            (
                ManageMembershipStage::DropOwner { group, user },
                Reply::Rows(Err(e)),
            ) => Outcome::Done(
                Err(
                    failure(
                        Status::InternalServerError,
                        at(
                            "manage_membership"@,
                            "removing user "@ + decimal(user.id as int) + " from owners of group "@
                                + decimal(group.id as int),
                        ),
                        e@,
                    ),
                ),
            ),
            _ => Outcome::Ask(self),
        }
    }

    open spec fn rank(&self) -> nat {
        match self.stage {
            ManageMembershipStage::OpenDatabase => 9,
            ManageMembershipStage::FindGroup => 8,
            ManageMembershipStage::FindUser { .. } => 7,
            ManageMembershipStage::DemoteOwner { .. } => 6,
            ManageMembershipStage::EnrolMember { .. } => 5,
            ManageMembershipStage::EnrolAdmin { .. } => 4,
            ManageMembershipStage::PromoteAdmin { .. } => 3,
            ManageMembershipStage::DropMember { .. } => 2,
            ManageMembershipStage::DropOwner { .. } => 1,
        }
    }

    open spec fn speaks_as(name: Seq<char>) -> bool {
        name == "manage_membership"@
    }

    proof fn moves(self, reply: Reply) {
    }

    proof fn ignores(self, reply: Reply) {
    }

    proof fn reports(self, reply: Reply) {
        broadcast use refusal_is_reported, failure_is_reported;

        assert(Self::speaks_as("manage_membership"@));
    }

    fn need(&self) -> (r: Need) {
        match &self.stage {
            ManageMembershipStage::OpenDatabase => Need::Query(Query::OpenDatabase),
            ManageMembershipStage::FindGroup => Need::Query(
                Query::FindGroup(group_key(&self.group_param)),
            ),
            ManageMembershipStage::FindUser { .. } => Need::Query(
                Query::UserByEmail(self.user_id.clone()),
            ),
            ManageMembershipStage::DemoteOwner { group, user } => Need::Query(
                Query::RemoveOwner { user: user.id, group: group.id },
            ),
            ManageMembershipStage::EnrolMember { group, user } => Need::Query(
                Query::AddMember { user: user.id, group: group.id },
            ),
            ManageMembershipStage::EnrolAdmin { group, user } => Need::Query(
                Query::AddMember { user: user.id, group: group.id },
            ),
            ManageMembershipStage::PromoteAdmin { group, user } => Need::Query(
                Query::AddOwner { user: user.id, group: group.id },
            ),
            ManageMembershipStage::DropMember { group, user } => Need::Query(
                Query::RemoveMember { user: user.id, group: group.id },
            ),
            ManageMembershipStage::DropOwner { group, user } => Need::Query(
                Query::RemoveOwner { user: user.id, group: group.id },
            ),
        }
    }

    fn resume(self, reply: Reply) -> (r: Progress<Self, Self::Answer>) {
        match (self.stage, reply) {
            (ManageMembershipStage::OpenDatabase, Reply::Done(Ok(_))) => Progress::Ask(
                ManageMembership {
                    group_param: self.group_param,
                    user_id: self.user_id,
                    action: self.action,
                    stage: ManageMembershipStage::FindGroup,
                },
            ),
            (ManageMembershipStage::OpenDatabase, Reply::Done(Err(e))) => Progress::Done(
                Err(
                    fail(
                        Status::ServiceUnavailable,
                        "manage_membership",
                        "failed to get DB connection",
                        e.as_str(),
                    ),
                ),
            ),
            (ManageMembershipStage::FindGroup, Reply::Group(Ok(group))) => Progress::Ask(
                ManageMembership {
                    group_param: self.group_param,
                    user_id: self.user_id,
                    action: self.action,
                    stage: ManageMembershipStage::FindUser { group },
                },
            ),
            (ManageMembershipStage::FindGroup, Reply::Group(Err(e))) => Progress::Done(
                Err(
                    fail(
                        Status::NotFound,
                        "manage_membership",
                        "group '".to_owned()
                            .concat(self.group_param.as_str())
                            .concat("' not found").as_str(),
                        e.as_str(),
                    ),
                ),
            ),
            (ManageMembershipStage::FindUser { group }, Reply::User(Ok(user))) => if same_text(
                self.action.as_str(),
                "add-member",
            ) {
                Progress::Ask(
                    ManageMembership {
                        group_param: self.group_param,
                        user_id: self.user_id,
                        action: self.action,
                        stage: ManageMembershipStage::DemoteOwner { group, user },
                    },
                )
            } else {
                if same_text(self.action.as_str(), "add-admin") {
                    Progress::Ask(
                        ManageMembership {
                            group_param: self.group_param,
                            user_id: self.user_id,
                            action: self.action,
                            stage: ManageMembershipStage::EnrolAdmin { group, user },
                        },
                    )
                } else {
                    if same_text(self.action.as_str(), "remove") {
                        Progress::Ask(
                            ManageMembership {
                                group_param: self.group_param,
                                user_id: self.user_id,
                                action: self.action,
                                stage: ManageMembershipStage::DropMember { group, user },
                            },
                        )
                    } else {
                        Progress::Done(
                            Err(
                                refuse(
                                    Status::BadRequest,
                                    "manage_membership",
                                    "unknown action '".to_owned()
                                        .concat(self.action.as_str())
                                        .concat("' (expected add-member, add-admin, or remove)")
                                        .as_str(),
                                ),
                            ),
                        )
                    }
                }
            },
            (ManageMembershipStage::FindUser { .. }, Reply::User(Err(e))) => Progress::Done(
                Err(
                    fail(
                        Status::NotFound,
                        "manage_membership",
                        "user '".to_owned()
                            .concat(self.user_id.as_str())
                            .concat("' not found").as_str(),
                        e.as_str(),
                    ),
                ),
            ),
            (
                ManageMembershipStage::DemoteOwner { group, user },
                Reply::Rows(Ok(_)),
            ) => Progress::Ask(
                ManageMembership {
                    group_param: self.group_param,
                    user_id: self.user_id,
                    action: self.action,
                    stage: ManageMembershipStage::EnrolMember { group, user },
                },
            ),
            (
                ManageMembershipStage::DemoteOwner { group, user },
                Reply::Rows(Err(e)),
            ) => Progress::Done(
                Err(
                    fail(
                        Status::InternalServerError,
                        "manage_membership",
                        "removing user ".to_owned()
                            .concat(integer_text(user.id).as_str())
                            .concat(" from owners of group ")
                            .concat(integer_text(group.id).as_str()).as_str(),
                        e.as_str(),
                    ),
                ),
            ),
            (ManageMembershipStage::EnrolMember { .. }, Reply::Rows(Ok(_))) => Progress::Done(
                Ok(StatusResponse { status: "success".to_owned() }),
            ),
            (
                ManageMembershipStage::EnrolMember { group, user },
                Reply::Rows(Err(e)),
            ) => Progress::Done(
                Err(
                    fail(
                        Status::InternalServerError,
                        "manage_membership",
                        "adding user ".to_owned()
                            .concat(integer_text(user.id).as_str())
                            .concat(" as member of group ")
                            .concat(integer_text(group.id).as_str()).as_str(),
                        e.as_str(),
                    ),
                ),
            ),
            (
                ManageMembershipStage::EnrolAdmin { group, user },
                Reply::Rows(Ok(_)),
            ) => Progress::Ask(
                ManageMembership {
                    group_param: self.group_param,
                    user_id: self.user_id,
                    action: self.action,
                    stage: ManageMembershipStage::PromoteAdmin { group, user },
                },
            ),
            (
                ManageMembershipStage::EnrolAdmin { group, user },
                Reply::Rows(Err(e)),
            ) => Progress::Done(
                Err(
                    fail(
                        Status::InternalServerError,
                        "manage_membership",
                        "adding user ".to_owned()
                            .concat(integer_text(user.id).as_str())
                            .concat(" as member of group ")
                            .concat(integer_text(group.id).as_str()).as_str(),
                        e.as_str(),
                    ),
                ),
            ),
            (ManageMembershipStage::PromoteAdmin { .. }, Reply::Rows(Ok(_))) => Progress::Done(
                Ok(StatusResponse { status: "success".to_owned() }),
            ),
            (
                ManageMembershipStage::PromoteAdmin { group, user },
                Reply::Rows(Err(e)),
            ) => Progress::Done(
                Err(
                    fail(
                        Status::InternalServerError,
                        "manage_membership",
                        "adding user ".to_owned()
                            .concat(integer_text(user.id).as_str())
                            .concat(" as owner of group ")
                            .concat(integer_text(group.id).as_str()).as_str(),
                        e.as_str(),
                    ),
                ),
            ),
            (
                ManageMembershipStage::DropMember { group, user },
                Reply::Rows(Ok(_)),
            ) => Progress::Ask(
                ManageMembership {
                    group_param: self.group_param,
                    user_id: self.user_id,
                    action: self.action,
                    stage: ManageMembershipStage::DropOwner { group, user },
                },
            ),
            (
                ManageMembershipStage::DropMember { group, user },
                Reply::Rows(Err(e)),
            ) => Progress::Done(
                Err(
                    fail(
                        Status::InternalServerError,
                        "manage_membership",
                        "removing user ".to_owned()
                            .concat(integer_text(user.id).as_str())
                            .concat(" from members of group ")
                            .concat(integer_text(group.id).as_str()).as_str(),
                        e.as_str(),
                    ),
                ),
            ),
            (ManageMembershipStage::DropOwner { .. }, Reply::Rows(Ok(_))) => Progress::Done(
                Ok(StatusResponse { status: "success".to_owned() }),
            ),
            (
                ManageMembershipStage::DropOwner { group, user },
                Reply::Rows(Err(e)),
            ) => Progress::Done(
                Err(
                    fail(
                        Status::InternalServerError,
                        "manage_membership",
                        "removing user ".to_owned()
                            .concat(integer_text(user.id).as_str())
                            .concat(" from owners of group ")
                            .concat(integer_text(group.id).as_str()).as_str(),
                        e.as_str(),
                    ),
                ),
            ),
            (stage, _) => Progress::Ask(
                ManageMembership {
                    group_param: self.group_param,
                    user_id: self.user_id,
                    action: self.action,
                    stage,
                },
            ),
        }
    }
}

} // verus!
