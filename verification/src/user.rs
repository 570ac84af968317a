//! Users: the stored user records and the rules of the light registration.

use crate::error::{ServiceError, ServiceErrorCode};
use crate::ids::{create_id, is_v4_uuid_text};
use vstd::prelude::*;

verus! {

/// The sign key of the server's jwt.
#[derive(Debug)]
pub struct JwtSignKey(pub String);

/// The verify key of the server's jwt.
#[derive(Debug)]
pub struct JwtVerifyKey(pub String);

/// The claims of a user's jwt.
#[derive(Debug)]
pub struct UserJwtEntity {
    pub id: String,
    pub identifier: String,
    /// Whether it is an app user or a customer.
    pub aud: String,
    /// The app id.
    pub sub: String,
}

/// A user record.
#[derive(Debug)]
pub struct UserEntity {
    pub id: String,
    pub name: String,
    pub time: u128,
}

/// The answer of the lookup whether a user exists.
#[derive(Debug, Clone, Copy)]
pub struct UserExistsEntity(pub i64);

/// What a login needs of a user.
#[derive(Debug)]
pub struct UserLoginDataEntity {
    pub client_random_value: String,
    pub hashed_authentication_key: String,
    pub derived_alg: String,
}

/// The keys a user gets after a finished login.
#[derive(Debug)]
pub struct DoneLoginServerKeysOutputEntity {
    pub encrypted_master_key: String,
    pub encrypted_private_key: String,
    pub public_key_string: String,
    pub keypair_encrypt_alg: String,
    pub encrypted_sign_key: String,
    pub verify_key_string: String,
    pub keypair_sign_alg: String,
    pub keypair_encrypt_id: String,
    pub keypair_sign_id: String,
    pub user_id: String,
}

/// The columns of a finished-login lookup, in their order.
#[derive(Debug)]
pub struct DoneLoginRow {
    pub encrypted_master_key: String,
    pub encrypted_private_key: String,
    pub public_key_string: String,
    pub keypair_encrypt_alg: String,
    pub encrypted_sign_key: String,
    pub verify_key_string: String,
    pub keypair_sign_alg: String,
    pub key_id: String,
    pub user_id: String,
}

impl DoneLoginServerKeysOutputEntity {
    /// The keys of a finished login: the key pair of the user's device is
    /// both the encryption and the sign key pair, under the one key id.
    pub fn from_row(row: DoneLoginRow) -> (out: Self)
        ensures
            out.encrypted_master_key == row.encrypted_master_key,
            out.encrypted_private_key == row.encrypted_private_key,
            out.public_key_string == row.public_key_string,
            out.keypair_encrypt_alg == row.keypair_encrypt_alg,
            out.encrypted_sign_key == row.encrypted_sign_key,
            out.verify_key_string == row.verify_key_string,
            out.keypair_sign_alg == row.keypair_sign_alg,
            out.keypair_encrypt_id@ == row.key_id@,
            out.keypair_sign_id@ == row.key_id@,
            out.user_id == row.user_id,
    {
        let keypair_encrypt_id = row.key_id.clone();
        DoneLoginServerKeysOutputEntity {
            encrypted_master_key: row.encrypted_master_key,
            encrypted_private_key: row.encrypted_private_key,
            public_key_string: row.public_key_string,
            keypair_encrypt_alg: row.keypair_encrypt_alg,
            encrypted_sign_key: row.encrypted_sign_key,
            verify_key_string: row.verify_key_string,
            keypair_sign_alg: row.keypair_sign_alg,
            keypair_encrypt_id,
            keypair_sign_id: row.key_id,
            user_id: row.user_id,
        }
    }
}

/// The key data of a light registration: no sign key pair.
#[derive(Debug)]
pub struct KeyDerivedLightData {
    pub derived_alg: String,
    pub client_random_value: String,
    pub hashed_authentication_key: String,
    pub public_key: String,
    pub encrypted_private_key: String,
    pub keypair_encrypt_alg: String,
}

/// The key data of a registration.
#[derive(Debug)]
pub struct KeyDerivedData {
    pub derived_alg: String,
    pub client_random_value: String,
    pub hashed_authentication_key: String,
    pub public_key: String,
    pub encrypted_private_key: String,
    pub keypair_encrypt_alg: String,
    pub verify_key: String,
    pub encrypted_sign_key: String,
    pub keypair_sign_alg: String,
}

/// The key data stored for a light registration: the light data, and empty
/// texts for the sign key pair.
pub fn light_derived_to(derived: KeyDerivedLightData) -> (out: KeyDerivedData)
    ensures
        out.derived_alg == derived.derived_alg,
        out.client_random_value == derived.client_random_value,
        out.hashed_authentication_key == derived.hashed_authentication_key,
        out.public_key == derived.public_key,
        out.encrypted_private_key == derived.encrypted_private_key,
        out.keypair_encrypt_alg == derived.keypair_encrypt_alg,
        out.verify_key@ == Seq::<char>::empty(),
        out.encrypted_sign_key@ == Seq::<char>::empty(),
        out.keypair_sign_alg@ == Seq::<char>::empty(),
{
    KeyDerivedData {
        derived_alg: derived.derived_alg,
        client_random_value: derived.client_random_value,
        hashed_authentication_key: derived.hashed_authentication_key,
        public_key: derived.public_key,
        encrypted_private_key: derived.encrypted_private_key,
        keypair_encrypt_alg: derived.keypair_encrypt_alg,
        verify_key: String::new(),
        encrypted_sign_key: String::new(),
        keypair_sign_alg: String::new(),
    }
}

/// The error for a registration under an identifier that is taken.
pub open spec fn user_exists_error() -> ServiceError {
    ServiceError {
        http_status_code: 400,
        error_code: ServiceErrorCode::UserExists,
        msg: "User already exists",
    }
}

/// A user can register under an identifier only where no user has it yet.
pub fn check_identifier_free(identifier_taken: bool) -> (res: Result<(), ServiceError>)
    ensures
        res is Ok <==> !identifier_taken,
        res is Err ==> res->Err_0 == user_exists_error(),
{
    if identifier_taken {
        return Err(ServiceError::new_msg(400, ServiceErrorCode::UserExists, "User already exists"));
    }
    Ok(())
}

/// The row of a new user in the user table.
#[derive(Debug)]
pub struct NewUserRow {
    pub id: String,
    pub app_id: String,
    pub user_group_id: String,
    pub time: u128,
}

/// The row of a user registered at `time` in an app: a new random id, and
/// the placeholder `none` for the user group, which is set once the user
/// group exists.
pub fn new_user_row(app_id: String, time: u128) -> (row: NewUserRow)
    ensures
        is_v4_uuid_text(row.id@),
        row.app_id@ == app_id@,
        row.user_group_id@ == "none"@,
        row.time == time,
{
    NewUserRow { id: create_id(), app_id, user_group_id: String::from_str("none"), time }
}

} // verus!
