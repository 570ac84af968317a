use server_api::customer_app::{
    auth_with_token, build_app_data, check_app_found, found_or_token_error, identifier_or_empty, new_app_rows, options_columns, options_from_selected,
    AppDataGeneral,
    AppJwt, AppOptions, AuthWithToken,
};
use server_api::error::ServiceErrorCode;

fn app() -> AppDataGeneral {
    AppDataGeneral {
        app_id: "app1".to_string(),
        customer_id: "c1".to_string(),
        hashed_secret_token: "SECRET".to_string(),
        hashed_public_token: "PUBLIC".to_string(),
        hash_alg: "sha".to_string(),
    }
}

fn options() -> AppOptions {
    AppOptions {
        group_create: 1,
        group_get: 1,
        group_invite: 1,
        group_reject_invite: 1,
        group_accept_invite: 1,
        group_join_req: 1,
        group_accept_join_req: 1,
        group_reject_join_req: 1,
        group_key_rotation: 1,
        group_user_delete: 1,
        group_delete: 1,
        group_leave: 1,
        group_change_rank: 1,
        user_exists: 1,
        user_register: 2,
        user_delete: 2,
        user_update: 1,
        user_change_password: 1,
        user_reset_password: 1,
        user_prepare_login: 1,
        user_done_login: 1,
        user_public_data: 1,
        user_refresh: 1,
    }
}

#[test]
fn token_kinds() {
    assert_eq!(auth_with_token(&"PUBLIC".to_string(), &app()).unwrap(), AuthWithToken::Public);
    assert_eq!(auth_with_token(&"SECRET".to_string(), &app()).unwrap(), AuthWithToken::Secret);
    let e = auth_with_token(&"OTHER".to_string(), &app()).unwrap_err();
    assert_eq!(e.http_status_code, 401);
    assert_eq!(e.error_code, ServiceErrorCode::AppTokenNotFound);
    assert_eq!(e.msg, "App token not found");
}

#[test]
fn public_token_wins_when_both_are_equal() {
    let mut a = app();
    a.hashed_secret_token = "PUBLIC".to_string();
    assert_eq!(auth_with_token(&"PUBLIC".to_string(), &a).unwrap(), AuthWithToken::Public);
}

#[test]
fn app_data_needs_app_token_and_options() {
    let jwt = vec![AppJwt { jwt_key_id: "j1".to_string(), jwt_alg: "ES384".to_string(), time: 3 }];
    let d = build_app_data(&"SECRET".to_string(), Some(app()), jwt, Some(options())).unwrap();
    assert_eq!(d.auth_with_token, AuthWithToken::Secret);
    assert_eq!(d.app_data.app_id, "app1");
    assert_eq!(d.jwt_data.len(), 1);
    assert_eq!(d.options.user_register, 2);
    assert!(build_app_data(&"SECRET".to_string(), None, vec![], Some(options())).is_err());
    assert!(build_app_data(&"NONE".to_string(), Some(app()), vec![], Some(options())).is_err());
    let e = build_app_data(&"PUBLIC".to_string(), Some(app()), vec![], None).unwrap_err();
    assert_eq!(e.error_code, ServiceErrorCode::AppTokenNotFound);
}

#[test]
fn lookups_found_or_not() {
    assert_eq!(found_or_token_error(Some(3)).unwrap(), 3);
    assert_eq!(found_or_token_error::<i32>(None).unwrap_err().http_status_code, 401);
    assert!(check_app_found(Some(1)).is_ok());
    let e = check_app_found::<i32>(None).unwrap_err();
    assert_eq!(e.http_status_code, 400);
    assert_eq!(e.error_code, ServiceErrorCode::AppNotFound);
    assert_eq!(e.msg, "App not found in this user space");
}

#[test]
fn identifier_defaults_to_empty() {
    assert_eq!(identifier_or_empty(Some("my app".to_string())), "my app");
    assert_eq!(identifier_or_empty(None), "");
}

#[test]
fn new_app_rows_hold_the_inputs() {
    let (app, jwt) = new_app_rows(
        "cust".to_string(),
        None,
        "sec".to_string(),
        "pub".to_string(),
        "sha256".to_string(),
        "sk".to_string(),
        "vk".to_string(),
        "ES384".to_string(),
        42,
    );
    assert_eq!(app.id.len(), 36);
    assert_eq!(app.customer_id, "cust");
    assert_eq!(app.identifier, "");
    assert_eq!(app.hashed_secret_token, "sec");
    assert_eq!(app.hashed_public_token, "pub");
    assert_eq!(app.hash_alg, "sha256");
    assert_eq!(app.time, 42);
    assert_eq!(jwt.id.len(), 36);
    assert_ne!(jwt.id, app.id);
    assert_eq!(jwt.app_id, app.id);
    assert_eq!(jwt.sign_key, "sk");
    assert_eq!(jwt.verify_key, "vk");
    assert_eq!(jwt.alg, "ES384");
    assert_eq!(jwt.time, 42);
    let (app, _) = new_app_rows(
        "c".to_string(),
        Some("my app".to_string()),
        "s".to_string(),
        "p".to_string(),
        "a".to_string(),
        "sk".to_string(),
        "vk".to_string(),
        "alg".to_string(),
        1,
    );
    assert_eq!(app.identifier, "my app");
}

fn numbered_options() -> AppOptions {
    AppOptions {
        group_create: 1,
        group_get: 2,
        group_invite: 3,
        group_reject_invite: 4,
        group_accept_invite: 5,
        group_join_req: 6,
        group_accept_join_req: 7,
        group_reject_join_req: 8,
        group_key_rotation: 9,
        group_user_delete: 10,
        group_delete: 11,
        group_leave: 12,
        group_change_rank: 13,
        user_exists: 14,
        user_register: 15,
        user_delete: 16,
        user_update: 17,
        user_change_password: 18,
        user_reset_password: 19,
        user_prepare_login: 20,
        user_done_login: 21,
        user_public_data: 22,
        user_refresh: 23,
    }
}

#[test]
fn options_columns_follow_the_table() {
    assert_eq!(
        options_columns(&numbered_options()),
        vec![1, 2, 3, 4, 5, 6, 7, 8, 9, 10, 13, 11, 12, 14, 15, 16, 17, 18, 19, 20, 21, 22, 23]
    );
}

#[test]
fn options_read_back_in_select_order() {
    let selected: Vec<i32> = (1..=23).collect();
    let o = options_from_selected(&selected).unwrap();
    assert_eq!(o.group_user_delete, 10);
    assert_eq!(o.group_delete, 11);
    assert_eq!(o.group_leave, 12);
    assert_eq!(o.group_change_rank, 13);
    assert_eq!(o.user_refresh, 23);
    assert!(options_from_selected(&vec![1; 22]).is_none());
    assert!(options_from_selected(&vec![1; 24]).is_none());
}
