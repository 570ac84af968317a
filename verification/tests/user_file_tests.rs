use server_api::error::{found_or, ServiceError, ServiceErrorCode};
use server_api::file::{belongs_to_type_from_stored, BelongsToType, FileMetaData, FileMetaDataRow, FileSessionCheck};
use server_api::user::{
    check_identifier_free, light_derived_to, new_user_row, DoneLoginRow, DoneLoginServerKeysOutputEntity, KeyDerivedLightData,
};

#[test]
fn light_registration_has_no_sign_keys() {
    let d = light_derived_to(KeyDerivedLightData {
        derived_alg: "argon2".to_string(),
        client_random_value: "rand".to_string(),
        hashed_authentication_key: "hash".to_string(),
        public_key: "pk".to_string(),
        encrypted_private_key: "sk".to_string(),
        keypair_encrypt_alg: "ecies".to_string(),
    });
    assert_eq!(d.derived_alg, "argon2");
    assert_eq!(d.client_random_value, "rand");
    assert_eq!(d.hashed_authentication_key, "hash");
    assert_eq!(d.public_key, "pk");
    assert_eq!(d.encrypted_private_key, "sk");
    assert_eq!(d.keypair_encrypt_alg, "ecies");
    assert_eq!(d.verify_key, "");
    assert_eq!(d.encrypted_sign_key, "");
    assert_eq!(d.keypair_sign_alg, "");
}

#[test]
fn taken_identifier_is_refused() {
    assert!(check_identifier_free(false).is_ok());
    let e = check_identifier_free(true).unwrap_err();
    assert_eq!(e.http_status_code, 400);
    assert_eq!(e.error_code, ServiceErrorCode::UserExists);
    assert_eq!(e.msg, "User already exists");
}

#[test]
fn done_login_uses_one_key_id_twice() {
    let out = DoneLoginServerKeysOutputEntity::from_row(DoneLoginRow {
        encrypted_master_key: "mk".to_string(),
        encrypted_private_key: "sk".to_string(),
        public_key_string: "pk".to_string(),
        keypair_encrypt_alg: "ea".to_string(),
        encrypted_sign_key: "sign".to_string(),
        verify_key_string: "vk".to_string(),
        keypair_sign_alg: "sa".to_string(),
        key_id: "kid".to_string(),
        user_id: "u1".to_string(),
    });
    assert_eq!(out.keypair_encrypt_id, "kid");
    assert_eq!(out.keypair_sign_id, "kid");
    assert_eq!(out.user_id, "u1");
    assert_eq!(out.encrypted_master_key, "mk");
}

#[test]
fn stored_owner_kinds() {
    assert_eq!(belongs_to_type_from_stored(0), BelongsToType::Unowned);
    assert_eq!(belongs_to_type_from_stored(1), BelongsToType::Group);
    assert_eq!(belongs_to_type_from_stored(2), BelongsToType::User);
    assert_eq!(belongs_to_type_from_stored(3), BelongsToType::Unowned);
    assert_eq!(belongs_to_type_from_stored(-1), BelongsToType::Unowned);
}

#[test]
fn file_record_from_row() {
    let f = FileMetaData::from_row(FileMetaDataRow {
        file_id: "f1".to_string(),
        owner: "u1".to_string(),
        belongs_to: Some("g1".to_string()),
        belongs_to_type: 1,
        key_id: "k1".to_string(),
        time: 99,
    });
    assert_eq!(f.file_id, "f1");
    assert_eq!(f.belongs_to_type, BelongsToType::Group);
    assert_eq!(f.belongs_to, Some("g1".to_string()));
    assert_eq!(f.time, 99);
    assert!(f.part_list.is_empty());
}

#[test]
fn found_or_gives_error_for_nothing() {
    let err = ServiceError::new_msg(404, ServiceErrorCode::GroupAccess, "x");
    assert_eq!(found_or(Some(1), err).unwrap(), 1);
    assert_eq!(found_or::<i32>(None, err).unwrap_err(), err);
}

#[test]
fn new_user_row_has_placeholder_group() {
    let row = new_user_row("app".to_string(), 7);
    assert_eq!(row.id.len(), 36);
    assert_eq!(row.app_id, "app");
    assert_eq!(row.user_group_id, "none");
    assert_eq!(row.time, 7);
}

#[test]
fn file_record_from_columns() {
    let f = FileMetaData::from_columns(
        "f".to_string(),
        "o".to_string(),
        Some("g".to_string()),
        1,
        "k".to_string(),
        "1725029869000",
    )
    .unwrap();
    assert_eq!(f.file_id, "f");
    assert_eq!(f.owner, "o");
    assert_eq!(f.belongs_to, Some("g".to_string()));
    assert_eq!(f.belongs_to_type, BelongsToType::Group);
    assert_eq!(f.key_id, "k");
    assert_eq!(f.time, 1725029869000);
    assert!(f.part_list.is_empty());
    assert!(FileMetaData::from_columns("f".to_string(), "o".to_string(), None, 0, "k".to_string(), "12a").is_none());
}

#[test]
fn upload_session_from_columns() {
    let c = FileSessionCheck::from_columns("f".to_string(), "17", "4096").unwrap();
    assert_eq!(c.file_id, "f");
    assert_eq!(c.created_at, 17);
    assert_eq!(c.max_chunk_size, 4096);
    assert!(FileSessionCheck::from_columns("f".to_string(), "", "1").is_none());
    assert!(FileSessionCheck::from_columns("f".to_string(), "1", "-1").is_none());
    assert!(FileSessionCheck::from_columns("f".to_string(), "1", "340282366920938463463374607431768211455").is_none());
}
