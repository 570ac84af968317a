//! Apps of a customer: which token a request came with, and the checks that
//! an app exists.

use crate::error::{ServiceError, ServiceErrorCode};
use crate::ids::{create_id, is_v4_uuid_text};
use vstd::prelude::*;

verus! {

/// The general data of an app, with the hashes of its two tokens.
#[derive(Debug)]
pub struct AppDataGeneral {
    pub app_id: String,
    pub customer_id: String,
    pub hashed_secret_token: String,
    pub hashed_public_token: String,
    pub hash_alg: String,
}

/// A jwt key of an app.
#[derive(Debug)]
pub struct AppJwt {
    pub jwt_key_id: String,
    pub jwt_alg: String,
    pub time: u128,
}

/// Which of the actions of the API an app allows, each as 0 (no), 1 (with
/// the public token) or 2 (with the secret token).
#[derive(Debug, Clone, Copy)]
pub struct AppOptions {
    pub group_create: i32,
    pub group_get: i32,
    pub group_invite: i32,
    pub group_reject_invite: i32,
    pub group_accept_invite: i32,
    pub group_join_req: i32,
    pub group_accept_join_req: i32,
    pub group_reject_join_req: i32,
    pub group_key_rotation: i32,
    pub group_user_delete: i32,
    pub group_delete: i32,
    pub group_leave: i32,
    pub group_change_rank: i32,
    pub user_exists: i32,
    pub user_register: i32,
    pub user_delete: i32,
    pub user_update: i32,
    pub user_change_password: i32,
    pub user_reset_password: i32,
    pub user_prepare_login: i32,
    pub user_done_login: i32,
    pub user_public_data: i32,
    pub user_refresh: i32,
}

/// The token that a request was made with.
#[derive(Debug, Clone, Copy, PartialEq, Eq, Structural)]
pub enum AuthWithToken {
    Public,
    Secret,
}

/// Everything the app-token middleware keeps of an app.
#[derive(Debug)]
pub struct AppData {
    pub app_data: AppDataGeneral,
    pub jwt_data: Vec<AppJwt>,
    pub auth_with_token: AuthWithToken,
    pub options: AppOptions,
}

/// The error for a token that belongs to no app.
pub open spec fn token_not_found() -> ServiceError {
    ServiceError {
        http_status_code: 401,
        error_code: ServiceErrorCode::AppTokenNotFound,
        msg: "App token not found",
    }
}

/// The error for an app that is not one of the customer's apps.
pub open spec fn app_not_found() -> ServiceError {
    ServiceError {
        http_status_code: 400,
        error_code: ServiceErrorCode::AppNotFound,
        msg: "App not found in this user space",
    }
}

/// Which token a hashed token is: the public one is tried first.
pub open spec fn spec_auth_with_token(
    hashed_token: Seq<char>,
    hashed_public_token: Seq<char>,
    hashed_secret_token: Seq<char>,
) -> Option<AuthWithToken> {
    if hashed_token == hashed_public_token {
        Some(AuthWithToken::Public)
    } else if hashed_token == hashed_secret_token {
        Some(AuthWithToken::Secret)
    } else {
        None
    }
}

/// Decides which token of the app a request came with.
pub fn auth_with_token(hashed_token: &String, app_data: &AppDataGeneral) -> (res: Result<AuthWithToken, ServiceError>)
    ensures
        match spec_auth_with_token(hashed_token@, app_data.hashed_public_token@, app_data.hashed_secret_token@) {
            Some(a) => res == Ok::<AuthWithToken, ServiceError>(a),
            None => res == Err::<AuthWithToken, ServiceError>(token_not_found()),
        },
{
    if *hashed_token == app_data.hashed_public_token {
        Ok(AuthWithToken::Public)
    } else if *hashed_token == app_data.hashed_secret_token {
        Ok(AuthWithToken::Secret)
    } else {
        Err(ServiceError::new_msg(401, ServiceErrorCode::AppTokenNotFound, "App token not found"))
    }
}

/// A looked-up app (or its options), or the token error where the lookup
/// found nothing.
pub fn found_or_token_error<T>(found: Option<T>) -> (res: Result<T, ServiceError>)
    ensures
        match found {
            Some(v) => res == Ok::<T, ServiceError>(v),
            None => res == Err::<T, ServiceError>(token_not_found()),
        },
{
    match found {
        Some(v) => Ok(v),
        None => Err(ServiceError::new_msg(401, ServiceErrorCode::AppTokenNotFound, "App token not found")),
    }
}

/// Checks that the lookup of an app among the customer's apps found it.
pub fn check_app_found<T>(found: Option<T>) -> (res: Result<(), ServiceError>)
    ensures
        res is Ok <==> found is Some,
        res is Err ==> res->Err_0 == app_not_found(),
{
    match found {
        Some(_) => Ok(()),
        None => Err(ServiceError::new_msg(400, ServiceErrorCode::AppNotFound, "App not found in this user space")),
    }
}

/// The app data that the middleware keeps for a request with `hashed_token`,
/// built from what the three lookups returned: the app the token belongs to,
/// its newest jwt keys and its options. The app must exist, the token must be
/// one of its two tokens, and its options must exist, checked in this order.
pub fn build_app_data(
    hashed_token: &String,
    app_data: Option<AppDataGeneral>,
    jwt_data: Vec<AppJwt>,
    options: Option<AppOptions>,
) -> (res: Result<AppData, ServiceError>)
    ensures
        app_data is None ==> res == Err::<AppData, ServiceError>(token_not_found()),
        app_data matches Some(a) ==> match spec_auth_with_token(
            hashed_token@,
            a.hashed_public_token@,
            a.hashed_secret_token@,
        ) {
            None => res == Err::<AppData, ServiceError>(token_not_found()),
            Some(auth) => match options {
                None => res == Err::<AppData, ServiceError>(token_not_found()),
                Some(o) => res matches Ok(d) && d.app_data == a && d.jwt_data == jwt_data
                    && d.auth_with_token == auth && d.options == o,
            },
        },
{
    let app_data = found_or_token_error(app_data)?;
    let auth = auth_with_token(hashed_token, &app_data)?;
    let options = found_or_token_error(options)?;
    Ok(AppData { app_data, jwt_data, auth_with_token: auth, options })
}

/// The identifier an app is stored with: the given one, or the empty text.
pub fn identifier_or_empty(identifier: Option<String>) -> (res: String)
    ensures
        res@ == match identifier {
            Some(i) => i@,
            None => Seq::<char>::empty(),
        },
{
    match identifier {
        Some(i) => i,
        None => String::new(),
    }
}

/// The row of a new app in the app table.
#[derive(Debug)]
pub struct NewAppRow {
    pub id: String,
    pub customer_id: String,
    pub identifier: String,
    pub hashed_secret_token: String,
    pub hashed_public_token: String,
    pub hash_alg: String,
    pub time: u128,
}

/// The row of the first jwt keys of a new app.
#[derive(Debug)]
pub struct NewJwtKeyRow {
    pub id: String,
    pub app_id: String,
    pub sign_key: String,
    pub verify_key: String,
    pub alg: String,
    pub time: u128,
}

/// The rows of a new app of a customer, made at `time`: the app gets a new
/// random id and is stored with its identifier (empty where none is given),
/// its token hashes and their algorithm; its first jwt keys get another new
/// random id and belong to the app.
pub fn new_app_rows(
    customer_id: String,
    identifier: Option<String>,
    hashed_secret_token: String,
    hashed_public_token: String,
    hash_alg: String,
    first_jwt_sign_key: String,
    first_jwt_verify_key: String,
    first_jwt_alg: String,
    time: u128,
) -> (rows: (NewAppRow, NewJwtKeyRow))
    ensures
        is_v4_uuid_text(rows.0.id@),
        rows.0.customer_id@ == customer_id@,
        rows.0.identifier@ == match identifier {
            Some(i) => i@,
            None => Seq::<char>::empty(),
        },
        rows.0.hashed_secret_token@ == hashed_secret_token@,
        rows.0.hashed_public_token@ == hashed_public_token@,
        rows.0.hash_alg@ == hash_alg@,
        rows.0.time == time,
        is_v4_uuid_text(rows.1.id@),
        rows.1.app_id@ == rows.0.id@,
        rows.1.sign_key@ == first_jwt_sign_key@,
        rows.1.verify_key@ == first_jwt_verify_key@,
        rows.1.alg@ == first_jwt_alg@,
        rows.1.time == time,
{
    let app_id = create_id();
    let jwt_key_id = create_id();
    let jwt_app_id = app_id.clone();
    let app = NewAppRow {
        id: app_id,
        customer_id,
        identifier: identifier_or_empty(identifier),
        hashed_secret_token,
        hashed_public_token,
        hash_alg,
        time,
    };
    let jwt = NewJwtKeyRow {
        id: jwt_key_id,
        app_id: jwt_app_id,
        sign_key: first_jwt_sign_key,
        verify_key: first_jwt_verify_key,
        alg: first_jwt_alg,
        time,
    };
    (app, jwt)
}

/// The options of an app in the column order of the options table:
/// the group actions (with the member actions before rank changes, deletes
/// and leaving), then the user actions.
pub open spec fn spec_options_columns(o: AppOptions) -> Seq<i32> {
    seq![
        o.group_create,
        o.group_get,
        o.group_invite,
        o.group_reject_invite,
        o.group_accept_invite,
        o.group_join_req,
        o.group_accept_join_req,
        o.group_reject_join_req,
        o.group_key_rotation,
        o.group_user_delete,
        o.group_change_rank,
        o.group_delete,
        o.group_leave,
        o.user_exists,
        o.user_register,
        o.user_delete,
        o.user_update,
        o.user_change_password,
        o.user_reset_password,
        o.user_prepare_login,
        o.user_done_login,
        o.user_public_data,
        o.user_refresh,
    ]
}

/// The values that the options table stores for an app's options, in its
/// column order.
pub fn options_columns(o: &AppOptions) -> (v: Vec<i32>)
    ensures
        v@ == spec_options_columns(*o),
{
    let mut v: Vec<i32> = Vec::new();
    v.push(o.group_create);
    v.push(o.group_get);
    v.push(o.group_invite);
    v.push(o.group_reject_invite);
    v.push(o.group_accept_invite);
    v.push(o.group_join_req);
    v.push(o.group_accept_join_req);
    v.push(o.group_reject_join_req);
    v.push(o.group_key_rotation);
    v.push(o.group_user_delete);
    v.push(o.group_change_rank);
    v.push(o.group_delete);
    v.push(o.group_leave);
    v.push(o.user_exists);
    v.push(o.user_register);
    v.push(o.user_delete);
    v.push(o.user_update);
    v.push(o.user_change_password);
    v.push(o.user_reset_password);
    v.push(o.user_prepare_login);
    v.push(o.user_done_login);
    v.push(o.user_public_data);
    v.push(o.user_refresh);
    assert(v@ =~= spec_options_columns(*o));
    v
}

/// The options read back from the options table, whose query selects the
/// group actions with deletes and leaving before rank changes: none unless
/// exactly the 23 values are given.
pub fn options_from_selected(v: &Vec<i32>) -> (res: Option<AppOptions>)
    ensures
        res is Some <==> v@.len() == 23,
        res matches Some(o) ==> {
            &&& o.group_create == v@[0]
            &&& o.group_get == v@[1]
            &&& o.group_invite == v@[2]
            &&& o.group_reject_invite == v@[3]
            &&& o.group_accept_invite == v@[4]
            &&& o.group_join_req == v@[5]
            &&& o.group_accept_join_req == v@[6]
            &&& o.group_reject_join_req == v@[7]
            &&& o.group_key_rotation == v@[8]
            &&& o.group_user_delete == v@[9]
            &&& o.group_delete == v@[10]
            &&& o.group_leave == v@[11]
            &&& o.group_change_rank == v@[12]
            &&& o.user_exists == v@[13]
            &&& o.user_register == v@[14]
            &&& o.user_delete == v@[15]
            &&& o.user_update == v@[16]
            &&& o.user_change_password == v@[17]
            &&& o.user_reset_password == v@[18]
            &&& o.user_prepare_login == v@[19]
            &&& o.user_done_login == v@[20]
            &&& o.user_public_data == v@[21]
            &&& o.user_refresh == v@[22]
        },
{
    if v.len() != 23 {
        return None;
    }
    Some(AppOptions {
        group_create: v[0],
        group_get: v[1],
        group_invite: v[2],
        group_reject_invite: v[3],
        group_accept_invite: v[4],
        group_join_req: v[5],
        group_accept_join_req: v[6],
        group_reject_join_req: v[7],
        group_key_rotation: v[8],
        group_user_delete: v[9],
        group_delete: v[10],
        group_leave: v[11],
        group_change_rank: v[12],
        user_exists: v[13],
        user_register: v[14],
        user_delete: v[15],
        user_update: v[16],
        user_change_password: v[17],
        user_reset_password: v[18],
        user_prepare_login: v[19],
        user_done_login: v[20],
        user_public_data: v[21],
        user_refresh: v[22],
    })
}

} // verus!
