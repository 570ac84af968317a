//! Rules of the group service: ranks, who becomes the first member of a new
//! group, how a member reaches a group, and the checks of member requests.

use crate::decimal::{parse_u128, spec_parse_u128};
use crate::error::{ServiceError, ServiceErrorCode};
use crate::ids::{is_v4_uuid_text, new_random_id};
use vstd::prelude::*;

verus! {

/// The error for a member whose rank is too low for an action.
pub open spec fn rank_error() -> ServiceError {
    ServiceError {
        http_status_code: 400,
        error_code: ServiceErrorCode::GroupUserRank,
        msg: "Wrong group rank for this action",
    }
}

/// Checks that a member of rank `user_rank` may do an action that needs rank
/// `req_rank`. Ranks count down: 0 is the creator, higher numbers are weaker.
pub fn check_group_rank(user_rank: i32, req_rank: i32) -> (res: Result<(), ServiceError>)
    ensures
        res is Ok <==> user_rank <= req_rank,
        res is Err ==> res->Err_0 == rank_error(),
{
    if user_rank > req_rank {
        return Err(ServiceError::new_msg(400, ServiceErrorCode::GroupUserRank, "Wrong group rank for this action"));
    }
    Ok(())
}

/// Ranks are ordered: a member that may do an action may do every action that
/// needs a weaker (higher) rank, and a stronger member may do whatever a
/// weaker one may.
pub proof fn lemma_rank_order(user_rank: i32, stronger_rank: i32, req_rank: i32, weaker_req_rank: i32)
    requires
        user_rank <= req_rank,
        req_rank <= weaker_req_rank,
        stronger_rank <= user_rank,
    ensures
        user_rank <= weaker_req_rank,
        stronger_rank <= req_rank,
{
}

/// The rank needed to create a child group, delete a group or stop invites.
pub const ADMIN_RANK: i32 = 1;

/// The rank of the first member of a new group, its creator.
pub const CREATOR_RANK: i32 = 0;

/// A new group starts with invites open (1); 0 stops them.
pub const INVITES_OPEN: i32 = 1;

/// Member type of a user.
pub const MEMBER_TYPE_USER: i32 = 0;

/// Member type of a parent group that owns a child group.
pub const MEMBER_TYPE_PARENT: i32 = 1;

/// Member type of a group that is a member of another group.
pub const MEMBER_TYPE_GROUP_AS_MEMBER: i32 = 2;

/// Who is inserted as the first member of a new group, with which member
/// type, and whether the new group is a connected group.
pub open spec fn spec_creation_plan(
    user_id: Seq<char>,
    parent_group_id: Option<Seq<char>>,
    user_rank: Option<i32>,
    connected_group: Option<Seq<char>>,
    is_connected_group: bool,
) -> Result<(Seq<char>, i32, bool), ServiceError> {
    match (parent_group_id, user_rank, connected_group) {
        (Some(p), Some(r), None) => if r > ADMIN_RANK {
            Err(rank_error())
        } else {
            Ok((p, MEMBER_TYPE_PARENT, is_connected_group))
        },
        (None, Some(r), Some(c)) => if r > ADMIN_RANK {
            Err(rank_error())
        } else {
            Ok((c, MEMBER_TYPE_GROUP_AS_MEMBER, true))
        },
        _ => Ok((user_id, MEMBER_TYPE_USER, false)),
    }
}

/// The text view of a creation plan.
pub open spec fn plan_view(r: Result<(String, i32, bool), ServiceError>) -> Result<(Seq<char>, i32, bool), ServiceError> {
    match r {
        Ok((id, t, c)) => Ok((id@, t, c)),
        Err(e) => Err(e),
    }
}

/// Only an admin or the creator (rank 0 or 1) may create a child group or a
/// connected group: for every weaker rank such a request is refused with the
/// rank error, and every refusal is one of these.
pub proof fn lemma_creation_needs_admin_rank(
    user_id: Seq<char>,
    parent_group_id: Option<Seq<char>>,
    user_rank: Option<i32>,
    connected_group: Option<Seq<char>>,
    is_connected_group: bool,
)
    ensures
        (user_rank is Some && user_rank->0 > 1 && ((parent_group_id is Some && connected_group is None) || (parent_group_id is None && connected_group is Some))) ==> (spec_creation_plan(
            user_id,
            parent_group_id,
            user_rank,
            connected_group,
            is_connected_group,
        ) is Err),
        (user_rank is Some && user_rank->0 > 1 && ((parent_group_id is Some && connected_group is None) || (parent_group_id is None && connected_group is Some))) ==> (spec_creation_plan(
            user_id,
            parent_group_id,
            user_rank,
            connected_group,
            is_connected_group,
        )->Err_0.error_code == ServiceErrorCode::GroupUserRank),
        spec_creation_plan(user_id, parent_group_id, user_rank, connected_group, is_connected_group) is Err
            ==> (user_rank is Some && user_rank->0 > 1 && ((parent_group_id is Some && connected_group is None) || (parent_group_id is None && connected_group is Some))),
{
}

/// Decides who becomes the first member of a new group.
///
/// A child group (parent given) is owned by its parent group, which needs at
/// least the admin rank in the parent; a group created by a group that is
/// itself a member (connected group given) is owned by that group, with the
/// same rank check, and is a connected group. In every other case the
/// creating user is the first member.
pub fn plan_group_creation(
    user_id: String,
    parent_group_id: &Option<String>,
    user_rank: Option<i32>,
    connected_group: Option<String>,
    is_connected_group: bool,
) -> (res: Result<(String, i32, bool), ServiceError>)
    ensures
        plan_view(res) == spec_creation_plan(
            user_id@,
            parent_group_id.deep_view(),
            user_rank,
            connected_group.deep_view(),
            is_connected_group,
        ),
        (user_rank is Some && user_rank->0 > 1 && ((parent_group_id is Some && connected_group is None) || (parent_group_id is None && connected_group is Some))) ==> (res is Err
            && res->Err_0.http_status_code == 400 && res->Err_0.error_code == ServiceErrorCode::GroupUserRank),
        res is Err ==> (user_rank is Some && user_rank->0 > 1 && ((parent_group_id is Some && connected_group is None) || (parent_group_id is None && connected_group is Some))),
        (parent_group_id is Some && user_rank is Some && user_rank->0 <= 1 && connected_group is None) ==> (res is Ok
            && res->Ok_0.0@ == parent_group_id->0@ && res->Ok_0.1 == 1 && res->Ok_0.2 == is_connected_group),
        (parent_group_id is None && user_rank is Some && user_rank->0 <= 1 && connected_group is Some) ==> (res is Ok
            && res->Ok_0.0@ == connected_group->0@ && res->Ok_0.1 == 2 && res->Ok_0.2),
        (!(parent_group_id is Some && user_rank is Some && connected_group is None) && !(parent_group_id is None
            && user_rank is Some && connected_group is Some)) ==> (res is Ok && res->Ok_0.0@ == user_id@
            && res->Ok_0.1 == 0 && !res->Ok_0.2),
{
    match (parent_group_id, user_rank, connected_group) {
        (Some(p), Some(r), None) => {
            check_group_rank(r, ADMIN_RANK)?;
            Ok((p.clone(), MEMBER_TYPE_PARENT, is_connected_group))
        },
        (None, Some(r), Some(c)) => {
            check_group_rank(r, ADMIN_RANK)?;
            Ok((c, MEMBER_TYPE_GROUP_AS_MEMBER, true))
        },
        _ => Ok((user_id, MEMBER_TYPE_USER, false)),
    }
}

/// The ids of the first group key and of the first hmac key of a new group:
/// two random version 4 UUIDs in the hyphenated form.
pub fn new_group_ids() -> (ids: (String, String))
    ensures
        is_v4_uuid_text(ids.0@),
        is_v4_uuid_text(ids.1@),
{
    (new_random_id(), new_random_id())
}

/// `count` query placeholders separated by commas: `?,?,?`.
pub open spec fn spec_placeholders(count: nat) -> Seq<char>
    decreases count,
{
    if count == 0 {
        Seq::empty()
    } else if count == 1 {
        seq!['?']
    } else {
        spec_placeholders((count - 1) as nat) + seq![',', '?']
    }
}

/// The statement that deletes the child groups of a deleted group, with one
/// placeholder for each child id.
pub fn delete_children_sql(count: usize) -> (sql: String)
    ensures
        sql@ == "DELETE FROM sentc_group WHERE id IN ("@ + spec_placeholders(count as nat) + ")"@,
{
    let mut sql = String::from_str("DELETE FROM sentc_group WHERE id IN (");
    let ghost start = sql@;
    let mut i: usize = 0;
    while i < count
        invariant
            i <= count,
            sql@ == start + spec_placeholders(i as nat),
        decreases count - i,
    {
        proof {
            reveal_strlit("?");
            reveal_strlit(",?");
        }
        if i == 0 {
            sql.append("?");
            assert(sql@ =~= start + spec_placeholders(1));
        } else {
            sql.append(",?");
            assert(sql@ =~= start + spec_placeholders((i + 1) as nat));
        }
        i = i + 1;
    }
    sql.append(")");
    sql
}

/// Everything a new group is created with: its new id, the creation time,
/// the first member, its member type and whether the group is connected.
pub fn prepare_create(
    user_id: String,
    parent_group_id: &Option<String>,
    user_rank: Option<i32>,
    connected_group: Option<String>,
    is_connected_group: bool,
    time: u128,
) -> (res: Result<(String, u128, String, i32, bool), ServiceError>)
    ensures
        res is Ok <==> spec_creation_plan(
            user_id@,
            parent_group_id.deep_view(),
            user_rank,
            connected_group.deep_view(),
            is_connected_group,
        ) is Ok,
        res matches Err(e) ==> e == rank_error(),
        res matches Ok((group_id, t, member, member_type, connected)) ==> {
            &&& is_v4_uuid_text(group_id@)
            &&& t == time
            &&& spec_creation_plan(
                user_id@,
                parent_group_id.deep_view(),
                user_rank,
                connected_group.deep_view(),
                is_connected_group,
            ) == Ok::<(Seq<char>, i32, bool), ServiceError>((member@, member_type, connected))
        },
{
    let (member, member_type, connected) = plan_group_creation(
        user_id,
        parent_group_id,
        user_rank,
        connected_group,
        is_connected_group,
    )?;
    let group_id = new_random_id();
    Ok((group_id, time, member, member_type, connected))
}

/// The row of a new group in the group table.
#[derive(Debug)]
pub struct NewGroupRow {
    pub id: String,
    pub app_id: String,
    pub parent: Option<String>,
    pub identifier: String,
    pub time: u128,
    pub group_type: i32,
    pub is_connected_group: bool,
    pub invite: i32,
}

/// The row of the first member of a new group in the member table.
#[derive(Debug)]
pub struct NewMemberRow {
    pub user_id: String,
    pub group_id: String,
    pub time: u128,
    pub rank: i32,
    pub member_type: i32,
}

/// The rows that create a group: the group itself and its first member.
#[derive(Debug)]
pub struct NewGroupRows {
    pub group: NewGroupRow,
    pub member: NewMemberRow,
}

/// The rows of a new group, made at `time` in an app by a user: the group
/// gets a new random id, the given parent, an empty identifier, the given
/// type, open invites, and is connected as the creation plan says; the first
/// member is the one the creation plan names, with the creator rank and the
/// plan's member type. A rank too low for the plan is the rank error.
pub fn new_group_rows(
    app_id: String,
    user_id: String,
    parent_group_id: Option<String>,
    user_rank: Option<i32>,
    group_type: i32,
    connected_group: Option<String>,
    is_connected_group: bool,
    time: u128,
) -> (res: Result<NewGroupRows, ServiceError>)
    ensures
        res is Ok <==> spec_creation_plan(
            user_id@,
            parent_group_id.deep_view(),
            user_rank,
            connected_group.deep_view(),
            is_connected_group,
        ) is Ok,
        res matches Err(e) ==> e == rank_error(),
        res matches Ok(rows) ==> {
            &&& is_v4_uuid_text(rows.group.id@)
            &&& rows.group.app_id@ == app_id@
            &&& rows.group.parent.deep_view() == parent_group_id.deep_view()
            &&& rows.group.identifier@ == Seq::<char>::empty()
            &&& rows.group.time == time
            &&& rows.group.group_type == group_type
            &&& rows.group.invite == INVITES_OPEN
            &&& rows.member.group_id@ == rows.group.id@
            &&& rows.member.time == time
            &&& rows.member.rank == CREATOR_RANK
            &&& spec_creation_plan(
                user_id@,
                parent_group_id.deep_view(),
                user_rank,
                connected_group.deep_view(),
                is_connected_group,
            ) == Ok::<(Seq<char>, i32, bool), ServiceError>(
                (rows.member.user_id@, rows.member.member_type, rows.group.is_connected_group),
            )
        },
{
    let (group_id, time, member, member_type, connected) = prepare_create(
        user_id,
        &parent_group_id,
        user_rank,
        connected_group,
        is_connected_group,
        time,
    )?;
    let member_group_id = group_id.clone();
    let group = NewGroupRow {
        id: group_id,
        app_id,
        parent: parent_group_id,
        identifier: String::new(),
        time,
        group_type,
        is_connected_group: connected,
        invite: INVITES_OPEN,
    };
    let member = NewMemberRow {
        user_id: member,
        group_id: member_group_id,
        time,
        rank: CREATOR_RANK,
        member_type,
    };
    Ok(NewGroupRows { group, member })
}

/// The key material that a new group is created with, as the creator sent
/// it: the first group key (encrypted for the creator), the key pair, the
/// hmac key and, where the group signs, the sign key pair.
#[derive(Debug)]
pub struct NewGroupKeyData {
    pub encrypted_group_key: String,
    pub group_key_alg: String,
    pub encrypted_group_key_alg: String,
    pub encrypted_private_group_key: String,
    pub public_group_key: String,
    pub keypair_encrypt_alg: String,
    pub creator_public_key_id: String,
    pub encrypted_hmac_key: String,
    pub encrypted_hmac_alg: String,
    pub encrypted_sign_key: Option<String>,
    pub verify_key: Option<String>,
    pub keypair_sign_alg: Option<String>,
}

/// The row of the first key of a new group in the group key table.
#[derive(Debug)]
pub struct NewGroupKeyRow {
    pub id: String,
    pub group_id: String,
    pub app_id: String,
    pub private_key_pair_alg: String,
    pub encrypted_private_key: String,
    pub public_key: String,
    pub group_key_alg: String,
    pub time: u128,
    pub encrypted_sign_key: Option<String>,
    pub verify_key: Option<String>,
    pub keypair_sign_alg: Option<String>,
}

/// The row of the first hmac key of a new group.
#[derive(Debug)]
pub struct NewGroupHmacRow {
    pub id: String,
    pub group_id: String,
    pub app_id: String,
    pub encrypted_hmac_key: String,
    pub encrypted_hmac_alg: String,
    pub encrypted_hmac_encryption_key_id: String,
    pub time: u128,
}

/// The row that gives the first member its copy of the first group key.
#[derive(Debug)]
pub struct NewMemberKeyRow {
    pub k_id: String,
    pub user_id: String,
    pub group_id: String,
    pub encrypted_group_key: String,
    pub encrypted_alg: String,
    pub encrypted_group_key_key_id: String,
    pub time: u128,
}

/// The key rows of a new group.
#[derive(Debug)]
pub struct NewGroupKeyRows {
    pub key: NewGroupKeyRow,
    pub hmac: NewGroupHmacRow,
    pub member_key: NewMemberKeyRow,
}

/// The key rows of a new group whose group and member rows are `rows`: the
/// first group key and the hmac key get new random ids; all rows belong to
/// the group, carry its app and its creation time; the key row holds the key
/// pair and the sign keys as sent; the hmac key is encrypted with the first
/// group key; the first member gets the first group key, encrypted with the
/// creator's public key.
pub fn new_group_key_rows(rows: &NewGroupRows, data: NewGroupKeyData) -> (keys: NewGroupKeyRows)
    ensures
        is_v4_uuid_text(keys.key.id@),
        keys.key.group_id@ == rows.group.id@,
        keys.key.app_id@ == rows.group.app_id@,
        keys.key.private_key_pair_alg@ == data.keypair_encrypt_alg@,
        keys.key.encrypted_private_key@ == data.encrypted_private_group_key@,
        keys.key.public_key@ == data.public_group_key@,
        keys.key.group_key_alg@ == data.group_key_alg@,
        keys.key.time == rows.group.time,
        keys.key.encrypted_sign_key.deep_view() == data.encrypted_sign_key.deep_view(),
        keys.key.verify_key.deep_view() == data.verify_key.deep_view(),
        keys.key.keypair_sign_alg.deep_view() == data.keypair_sign_alg.deep_view(),
        is_v4_uuid_text(keys.hmac.id@),
        keys.hmac.group_id@ == rows.group.id@,
        keys.hmac.app_id@ == rows.group.app_id@,
        keys.hmac.encrypted_hmac_key@ == data.encrypted_hmac_key@,
        keys.hmac.encrypted_hmac_alg@ == data.encrypted_hmac_alg@,
        keys.hmac.encrypted_hmac_encryption_key_id@ == keys.key.id@,
        keys.hmac.time == rows.group.time,
        keys.member_key.k_id@ == keys.key.id@,
        keys.member_key.user_id@ == rows.member.user_id@,
        keys.member_key.group_id@ == rows.group.id@,
        keys.member_key.encrypted_group_key@ == data.encrypted_group_key@,
        keys.member_key.encrypted_alg@ == data.encrypted_group_key_alg@,
        keys.member_key.encrypted_group_key_key_id@ == data.creator_public_key_id@,
        keys.member_key.time == rows.group.time,
{
    let (key_id, hmac_id) = new_group_ids();
    let hmac_key_ref = key_id.clone();
    let member_key_ref = key_id.clone();
    let time = rows.group.time;
    let key = NewGroupKeyRow {
        id: key_id,
        group_id: rows.group.id.clone(),
        app_id: rows.group.app_id.clone(),
        private_key_pair_alg: data.keypair_encrypt_alg,
        encrypted_private_key: data.encrypted_private_group_key,
        public_key: data.public_group_key,
        group_key_alg: data.group_key_alg,
        time,
        encrypted_sign_key: data.encrypted_sign_key,
        verify_key: data.verify_key,
        keypair_sign_alg: data.keypair_sign_alg,
    };
    let hmac = NewGroupHmacRow {
        id: hmac_id,
        group_id: rows.group.id.clone(),
        app_id: rows.group.app_id.clone(),
        encrypted_hmac_key: data.encrypted_hmac_key,
        encrypted_hmac_alg: data.encrypted_hmac_alg,
        encrypted_hmac_encryption_key_id: hmac_key_ref,
        time,
    };
    let member_key = NewMemberKeyRow {
        k_id: member_key_ref,
        user_id: rows.member.user_id.clone(),
        group_id: rows.group.id.clone(),
        encrypted_group_key: data.encrypted_group_key,
        encrypted_alg: data.encrypted_group_key_alg,
        encrypted_group_key_key_id: data.creator_public_key_id,
        time,
    };
    NewGroupKeyRows { key, hmac, member_key }
}

/// The error for a group that the caller cannot reach.
pub fn no_group_access() -> (e: ServiceError)
    ensures
        e.http_status_code == 400,
        e.error_code == ServiceErrorCode::GroupAccess,
        e.msg@ == "No access to this group"@,
{
    ServiceError::new_msg(400, ServiceErrorCode::GroupAccess, "No access to this group")
}

/// The error for a group key that the member does not have.
pub fn group_key_not_found() -> (e: ServiceError)
    ensures
        e.http_status_code == 200,
        e.error_code == ServiceErrorCode::GroupKeyNotFound,
        e.msg@ == "Group key not found"@,
{
    ServiceError::new_msg(200, ServiceErrorCode::GroupKeyNotFound, "Group key not found")
}

/// The error for a group without a public key.
pub fn group_public_key_not_found() -> (e: ServiceError)
    ensures
        e.http_status_code == 400,
        e.error_code == ServiceErrorCode::GroupKeyNotFound,
        e.msg@ == "Public key from this group was not found"@,
{
    ServiceError::new_msg(400, ServiceErrorCode::GroupKeyNotFound, "Public key from this group was not found")
}

/// The error for a member request that carries no group keys.
pub open spec fn no_keys_error() -> ServiceError {
    ServiceError {
        http_status_code: 400,
        error_code: ServiceErrorCode::GroupNoKeys,
        msg: "No group keys for the user",
    }
}

/// An invite or an accepted join request must hand over at least one group key.
pub fn check_member_keys(key_count: usize) -> (res: Result<(), ServiceError>)
    ensures
        res is Ok <==> key_count > 0,
        res is Err ==> res->Err_0 == no_keys_error(),
{
    if key_count == 0 {
        return Err(ServiceError::new_msg(400, ServiceErrorCode::GroupNoKeys, "No group keys for the user"));
    }
    Ok(())
}

/// The error for a paging time that is no number.
pub open spec fn time_error() -> ServiceError {
    ServiceError {
        http_status_code: 400,
        error_code: ServiceErrorCode::UnexpectedTime,
        msg: "last fetched time is wrong",
    }
}

/// Reads the `last_fetched_time` parameter of a paged request.
pub fn parse_last_fetched_time(text: &str) -> (res: Result<u128, ServiceError>)
    ensures
        match spec_parse_u128(text@) {
            Some(t) => res == Ok::<u128, ServiceError>(t),
            None => res == Err::<u128, ServiceError>(time_error()),
        },
{
    match parse_u128(text) {
        Some(t) => Ok(t),
        None => Err(ServiceError::new_msg(400, ServiceErrorCode::UnexpectedTime, "last fetched time is wrong")),
    }
}

/// A group as the group middleware loads it.
#[derive(Debug)]
pub struct InternalGroupData {
    pub id: String,
    pub app_id: String,
    pub parent: Option<String>,
    pub time: u128,
    pub invite: i32,
    pub is_connected_group: bool,
}

/// A member of a group as the group middleware loads it. Where the member
/// reaches the group through a parent group or through a group that is a
/// member, the ids of those groups are given.
#[derive(Debug)]
pub struct InternalUserGroupData {
    pub user_id: String,
    pub real_user_id: String,
    pub joined_time: u128,
    pub rank: i32,
    pub get_values_from_parent: Option<String>,
    pub get_values_from_group_as_member: Option<String>,
}

/// A group together with the member that asks for it.
#[derive(Debug)]
pub struct InternalGroupDataComplete {
    pub group_data: InternalGroupData,
    pub user_data: InternalUserGroupData,
}

/// How a member reaches a group.
#[derive(Debug)]
pub enum GroupUserAccessBy {
    User,
    Parent(String),
    GroupAsUser(String),
    GroupAsUserAsParent { parent: String, group_as_user: String },
}

/// The text view of [`GroupUserAccessBy`].
pub enum AccessByView {
    User,
    Parent(Seq<char>),
    GroupAsUser(Seq<char>),
    GroupAsUserAsParent { parent: Seq<char>, group_as_user: Seq<char> },
}

impl View for GroupUserAccessBy {
    type V = AccessByView;

    open spec fn view(&self) -> AccessByView {
        match self {
            GroupUserAccessBy::User => AccessByView::User,
            GroupUserAccessBy::Parent(p) => AccessByView::Parent(p@),
            GroupUserAccessBy::GroupAsUser(g) => AccessByView::GroupAsUser(g@),
            GroupUserAccessBy::GroupAsUserAsParent { parent, group_as_user } => {
                AccessByView::GroupAsUserAsParent { parent: parent@, group_as_user: group_as_user@ }
            },
        }
    }
}

/// How the member reaches the group: through a group that is a member and
/// a parent group, through one of them, or directly as a user.
pub open spec fn spec_access_by(
    as_member: Option<Seq<char>>,
    from_parent: Option<Seq<char>>,
) -> AccessByView {
    match (as_member, from_parent) {
        (Some(m), Some(p)) => AccessByView::GroupAsUserAsParent { parent: p, group_as_user: m },
        (Some(m), None) => AccessByView::GroupAsUser(m),
        (None, Some(p)) => AccessByView::Parent(p),
        (None, None) => AccessByView::User,
    }
}

/// The parent of the group and how the member reaches the group.
pub fn extract_parent_and_access_by(group_data: &InternalGroupDataComplete) -> (res: (Option<String>, GroupUserAccessBy))
    ensures
        res.0.deep_view() == group_data.group_data.parent.deep_view(),
        res.1@ == spec_access_by(
            group_data.user_data.get_values_from_group_as_member.deep_view(),
            group_data.user_data.get_values_from_parent.deep_view(),
        ),
{
    let parent = match &group_data.group_data.parent {
        Some(p) => Some(p.clone()),
        None => None,
    };
    let access_by = match (
        &group_data.user_data.get_values_from_group_as_member,
        &group_data.user_data.get_values_from_parent,
    ) {
        (Some(v_as_member), Some(v_as_parent)) => GroupUserAccessBy::GroupAsUserAsParent {
            group_as_user: v_as_member.clone(),
            parent: v_as_parent.clone(),
        },
        (Some(v_as_member), None) => GroupUserAccessBy::GroupAsUser(v_as_member.clone()),
        (None, Some(v_as_parent)) => GroupUserAccessBy::Parent(v_as_parent.clone()),
        (None, None) => GroupUserAccessBy::User,
    };
    (parent, access_by)
}

/// A group as a member sees it, without its keys.
#[derive(Debug)]
pub struct GroupLightServerData {
    pub group_id: String,
    pub parent_group_id: Option<String>,
    pub rank: i32,
    pub created_time: u128,
    pub joined_time: u128,
    pub access_by: GroupUserAccessBy,
    pub is_connected_group: bool,
}

/// The group data that a member gets, without the keys.
pub fn get_user_group_light_data(group_data: &InternalGroupDataComplete) -> (out: GroupLightServerData)
    ensures
        out.group_id@ == group_data.group_data.id@,
        out.parent_group_id.deep_view() == group_data.group_data.parent.deep_view(),
        out.rank == group_data.user_data.rank,
        out.created_time == group_data.group_data.time,
        out.joined_time == group_data.user_data.joined_time,
        out.access_by@ == spec_access_by(
            group_data.user_data.get_values_from_group_as_member.deep_view(),
            group_data.user_data.get_values_from_parent.deep_view(),
        ),
        out.is_connected_group == group_data.group_data.is_connected_group,
{
    let (parent, access_by) = extract_parent_and_access_by(group_data);
    GroupLightServerData {
        group_id: group_data.group_data.id.clone(),
        parent_group_id: parent,
        rank: group_data.user_data.rank,
        created_time: group_data.group_data.time,
        joined_time: group_data.user_data.joined_time,
        access_by,
        is_connected_group: group_data.group_data.is_connected_group,
    }
}

} // verus!
