use server_api::error::ServiceErrorCode;
use server_api::group::{
    check_group_rank, delete_children_sql, new_group_ids, check_member_keys, extract_parent_and_access_by, get_user_group_light_data,
    new_group_key_rows, new_group_rows, no_group_access, NewGroupKeyData, parse_last_fetched_time, plan_group_creation, prepare_create, GroupUserAccessBy,
    InternalGroupData, InternalGroupDataComplete, InternalUserGroupData,
};

#[test]
fn rank_at_most_required_passes() {
    assert!(check_group_rank(0, 1).is_ok());
    assert!(check_group_rank(1, 1).is_ok());
    assert!(check_group_rank(-5, 0).is_ok());
}

#[test]
fn rank_above_required_fails() {
    let e = check_group_rank(2, 1).unwrap_err();
    assert_eq!(e.http_status_code, 400);
    assert_eq!(e.error_code, ServiceErrorCode::GroupUserRank);
    assert_eq!(e.msg, "Wrong group rank for this action");
    assert!(check_group_rank(4, 3).is_err());
}

#[test]
fn creation_by_user() {
    let (member, member_type, connected) =
        plan_group_creation("user1".to_string(), &None, None, None, true).unwrap();
    assert_eq!(member, "user1");
    assert_eq!(member_type, 0);
    assert!(!connected);
}

#[test]
fn creation_of_child_group_by_admin() {
    let parent = Some("parent1".to_string());
    let (member, member_type, connected) =
        plan_group_creation("user1".to_string(), &parent, Some(1), None, true).unwrap();
    assert_eq!(member, "parent1");
    assert_eq!(member_type, 1);
    assert!(connected);
    let (_, _, connected) = plan_group_creation("user1".to_string(), &parent, Some(0), None, false).unwrap();
    assert!(!connected);
}

#[test]
fn creation_of_child_group_by_member_fails() {
    let parent = Some("parent1".to_string());
    let e = plan_group_creation("user1".to_string(), &parent, Some(2), None, false).unwrap_err();
    assert_eq!(e.error_code, ServiceErrorCode::GroupUserRank);
}

#[test]
fn creation_by_group_as_member() {
    let (member, member_type, connected) =
        plan_group_creation("user1".to_string(), &None, Some(1), Some("g2".to_string()), false).unwrap();
    assert_eq!(member, "g2");
    assert_eq!(member_type, 2);
    assert!(connected);
    assert!(plan_group_creation("user1".to_string(), &None, Some(3), Some("g2".to_string()), false).is_err());
}

#[test]
fn creation_with_parent_and_connected_group_is_by_user() {
    let parent = Some("p".to_string());
    let (member, member_type, connected) =
        plan_group_creation("u".to_string(), &parent, Some(5), Some("c".to_string()), true).unwrap();
    assert_eq!(member, "u");
    assert_eq!(member_type, 0);
    assert!(!connected);
}

#[test]
fn prepare_create_makes_new_ids() {
    let (id1, t1, member, member_type, _) = prepare_create("u".to_string(), &None, None, None, false, 77).unwrap();
    let (id2, _, _, _, _) = prepare_create("u".to_string(), &None, None, None, false, 77).unwrap();
    assert_eq!(id1.len(), 36);
    assert_eq!(id2.len(), 36);
    assert_ne!(id1, id2);
    assert_eq!(t1, 77);
    assert_eq!(member, "u");
    assert_eq!(member_type, 0);
    let parent = Some("p".to_string());
    assert!(prepare_create("u".to_string(), &parent, Some(2), None, false, 1).is_err());
}

#[test]
fn member_requests_need_keys() {
    assert!(check_member_keys(1).is_ok());
    let e = check_member_keys(0).unwrap_err();
    assert_eq!(e.error_code, ServiceErrorCode::GroupNoKeys);
    assert_eq!(e.msg, "No group keys for the user");
}

#[test]
fn last_fetched_time_parses() {
    assert_eq!(parse_last_fetched_time("0").unwrap(), 0);
    assert_eq!(parse_last_fetched_time("1725029869000").unwrap(), 1725029869000);
    let e = parse_last_fetched_time("abc").unwrap_err();
    assert_eq!(e.error_code, ServiceErrorCode::UnexpectedTime);
    assert_eq!(e.msg, "last fetched time is wrong");
}

#[test]
fn no_access_error() {
    let e = no_group_access();
    assert_eq!(e.http_status_code, 400);
    assert_eq!(e.error_code, ServiceErrorCode::GroupAccess);
}

fn group(parent: Option<&str>, from_member: Option<&str>, from_parent: Option<&str>) -> InternalGroupDataComplete {
    InternalGroupDataComplete {
        group_data: InternalGroupData {
            id: "g1".to_string(),
            app_id: "app".to_string(),
            parent: parent.map(|p| p.to_string()),
            time: 10,
            invite: 1,
            is_connected_group: false,
        },
        user_data: InternalUserGroupData {
            user_id: "u1".to_string(),
            real_user_id: "u1".to_string(),
            joined_time: 20,
            rank: 3,
            get_values_from_parent: from_parent.map(|p| p.to_string()),
            get_values_from_group_as_member: from_member.map(|p| p.to_string()),
        },
    }
}

#[test]
fn access_by_all_four_ways() {
    let (parent, by) = extract_parent_and_access_by(&group(Some("p"), None, None));
    assert_eq!(parent, Some("p".to_string()));
    assert!(matches!(by, GroupUserAccessBy::User));
    let (_, by) = extract_parent_and_access_by(&group(None, Some("m"), None));
    assert!(matches!(by, GroupUserAccessBy::GroupAsUser(ref m) if m == "m"));
    let (_, by) = extract_parent_and_access_by(&group(None, None, Some("p")));
    assert!(matches!(by, GroupUserAccessBy::Parent(ref p) if p == "p"));
    let (parent, by) = extract_parent_and_access_by(&group(None, Some("m"), Some("p")));
    assert_eq!(parent, None);
    assert!(matches!(by, GroupUserAccessBy::GroupAsUserAsParent { ref parent, ref group_as_user } if parent == "p" && group_as_user == "m"));
}

#[test]
fn light_data_copies_group_and_member() {
    let d = get_user_group_light_data(&group(Some("p"), None, Some("p")));
    assert_eq!(d.group_id, "g1");
    assert_eq!(d.parent_group_id, Some("p".to_string()));
    assert_eq!(d.rank, 3);
    assert_eq!(d.created_time, 10);
    assert_eq!(d.joined_time, 20);
    assert!(!d.is_connected_group);
    assert!(matches!(d.access_by, GroupUserAccessBy::Parent(ref p) if p == "p"));
}

#[test]
fn delete_children_statement_has_one_placeholder_per_child() {
    assert_eq!(delete_children_sql(0), "DELETE FROM sentc_group WHERE id IN ()");
    assert_eq!(delete_children_sql(1), "DELETE FROM sentc_group WHERE id IN (?)");
    assert_eq!(delete_children_sql(3), "DELETE FROM sentc_group WHERE id IN (?,?,?)");
}

#[test]
fn first_key_ids_are_new() {
    let (a, b) = new_group_ids();
    assert_eq!(a.len(), 36);
    assert_eq!(b.len(), 36);
    assert_ne!(a, b);
}

#[test]
fn new_group_rows_for_a_user() {
    let rows = new_group_rows("app".to_string(), "u".to_string(), None, None, 0, None, false, 99).unwrap();
    assert_eq!(rows.group.id.len(), 36);
    assert_eq!(rows.group.app_id, "app");
    assert_eq!(rows.group.parent, None);
    assert_eq!(rows.group.identifier, "");
    assert_eq!(rows.group.time, 99);
    assert_eq!(rows.group.group_type, 0);
    assert!(!rows.group.is_connected_group);
    assert_eq!(rows.group.invite, 1);
    assert_eq!(rows.member.user_id, "u");
    assert_eq!(rows.member.group_id, rows.group.id);
    assert_eq!(rows.member.time, 99);
    assert_eq!(rows.member.rank, 0);
    assert_eq!(rows.member.member_type, 0);
}

#[test]
fn new_group_rows_for_child_and_connected_groups() {
    let rows = new_group_rows("app".to_string(), "u".to_string(), Some("p".to_string()), Some(1), 0, None, false, 5).unwrap();
    assert_eq!(rows.group.parent, Some("p".to_string()));
    assert_eq!(rows.member.user_id, "p");
    assert_eq!(rows.member.member_type, 1);
    let rows = new_group_rows("app".to_string(), "u".to_string(), None, Some(0), 1, Some("c".to_string()), false, 5).unwrap();
    assert_eq!(rows.member.user_id, "c");
    assert_eq!(rows.member.member_type, 2);
    assert!(rows.group.is_connected_group);
    assert_eq!(rows.group.group_type, 1);
    let e = new_group_rows("app".to_string(), "u".to_string(), Some("p".to_string()), Some(2), 0, None, false, 5).unwrap_err();
    assert_eq!(e.error_code, ServiceErrorCode::GroupUserRank);
}

#[test]
fn new_group_key_rows_link_to_the_first_key() {
    let rows = new_group_rows("app".to_string(), "u".to_string(), None, None, 0, None, false, 99).unwrap();
    let keys = new_group_key_rows(
        &rows,
        NewGroupKeyData {
            encrypted_group_key: "egk".to_string(),
            group_key_alg: "gka".to_string(),
            encrypted_group_key_alg: "egka".to_string(),
            encrypted_private_group_key: "epk".to_string(),
            public_group_key: "pk".to_string(),
            keypair_encrypt_alg: "kea".to_string(),
            creator_public_key_id: "cpk".to_string(),
            encrypted_hmac_key: "hk".to_string(),
            encrypted_hmac_alg: "ha".to_string(),
            encrypted_sign_key: Some("sk".to_string()),
            verify_key: Some("vk".to_string()),
            keypair_sign_alg: Some("sa".to_string()),
        },
    );
    assert_eq!(keys.key.id.len(), 36);
    assert_eq!(keys.key.group_id, rows.group.id);
    assert_eq!(keys.key.app_id, "app");
    assert_eq!(keys.key.private_key_pair_alg, "kea");
    assert_eq!(keys.key.encrypted_private_key, "epk");
    assert_eq!(keys.key.public_key, "pk");
    assert_eq!(keys.key.group_key_alg, "gka");
    assert_eq!(keys.key.encrypted_sign_key, Some("sk".to_string()));
    assert_eq!(keys.key.verify_key, Some("vk".to_string()));
    assert_eq!(keys.key.keypair_sign_alg, Some("sa".to_string()));
    assert_eq!(keys.hmac.id.len(), 36);
    assert_ne!(keys.hmac.id, keys.key.id);
    assert_eq!(keys.hmac.encrypted_hmac_key, "hk");
    assert_eq!(keys.hmac.encrypted_hmac_alg, "ha");
    assert_eq!(keys.hmac.encrypted_hmac_encryption_key_id, keys.key.id);
    assert_eq!(keys.member_key.k_id, keys.key.id);
    assert_eq!(keys.member_key.user_id, "u");
    assert_eq!(keys.member_key.group_id, rows.group.id);
    assert_eq!(keys.member_key.encrypted_group_key, "egk");
    assert_eq!(keys.member_key.encrypted_alg, "egka");
    assert_eq!(keys.member_key.encrypted_group_key_key_id, "cpk");
    assert_eq!(keys.key.time, 99);
    assert_eq!(keys.hmac.time, 99);
    assert_eq!(keys.member_key.time, 99);
}
