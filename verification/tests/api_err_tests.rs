use server_api::api_err::{json_to_string_err, ApiErrorCodes, HttpErr};

#[test]
fn error_numbers_match_codes() {
    assert_eq!(ApiErrorCodes::JsonToString.get_int_code(), 10);
    assert_eq!(ApiErrorCodes::JsonParse.get_int_code(), 11);
    assert_eq!(ApiErrorCodes::UnexpectedTimeError.get_int_code(), 12);
    assert_eq!(ApiErrorCodes::NoDbConnection.get_int_code(), 20);
    assert_eq!(ApiErrorCodes::DbQuery.get_int_code(), 21);
    assert_eq!(ApiErrorCodes::DbExecute.get_int_code(), 22);
    assert_eq!(ApiErrorCodes::DbBulkInsert.get_int_code(), 23);
    assert_eq!(ApiErrorCodes::UserNotFound.get_int_code(), 100);
}

#[test]
fn new_keeps_all_fields() {
    let e = HttpErr::new(404, ApiErrorCodes::UserNotFound, "User not found", Some("dbg".to_string()));
    assert_eq!(e.http_status_code, 404);
    assert_eq!(e.api_error_code, ApiErrorCodes::UserNotFound);
    assert_eq!(e.msg, "User not found");
    assert_eq!(e.debug_msg, Some("dbg".to_string()));
}

#[test]
fn body_is_json_with_number_and_message() {
    let e = HttpErr::new(404, ApiErrorCodes::UserNotFound, "User not found", None);
    assert_eq!(e.body(), "{\"status\": 100, \"error_message\": \"User not found\"}");
    let e = HttpErr::new(500, ApiErrorCodes::DbQuery, "Db error", None);
    assert_eq!(e.body(), "{\"status\": 21, \"error_message\": \"Db error\"}");
}

#[test]
fn valid_status_is_kept() {
    assert_eq!(HttpErr::new(404, ApiErrorCodes::UserNotFound, "x", None).status(), 404);
    assert_eq!(HttpErr::new(100, ApiErrorCodes::UserNotFound, "x", None).status(), 100);
    assert_eq!(HttpErr::new(999, ApiErrorCodes::UserNotFound, "x", None).status(), 999);
}

#[test]
fn invalid_status_becomes_bad_request() {
    assert_eq!(HttpErr::new(99, ApiErrorCodes::UserNotFound, "x", None).status(), 400);
    assert_eq!(HttpErr::new(1000, ApiErrorCodes::UserNotFound, "x", None).status(), 400);
    assert_eq!(HttpErr::new(0, ApiErrorCodes::UserNotFound, "x", None).status(), 400);
}

#[test]
fn get_res_has_status_body_and_debug_message() {
    let e = HttpErr::new(1200, ApiErrorCodes::JsonParse, "Wrong input", Some("trace".to_string()));
    let r = e.get_res();
    assert_eq!(r.status, 400);
    assert_eq!(r.content_type, "application/json");
    assert_eq!(r.body, "{\"status\": 11, \"error_message\": \"Wrong input\"}");
    assert_eq!(r.debug_msg, Some("trace".to_string()));
}

#[test]
fn json_error_has_code_and_debug_text() {
    let e = json_to_string_err(std::fmt::Error);
    assert_eq!(e.http_status_code, 422);
    assert_eq!(e.api_error_code, ApiErrorCodes::JsonToString);
    assert_eq!(e.msg, "Err in json");
    assert_eq!(e.debug_msg, Some("err in json to string: Error".to_string()));
    assert_eq!(e.get_res().body, "{\"status\": 10, \"error_message\": \"Err in json\"}");
}

#[test]
fn user_not_found_answer() {
    let r = HttpErr::new(404, ApiErrorCodes::UserNotFound, "User not found", None).get_res();
    assert_eq!(r.status, 404);
    assert_eq!(r.content_type, "application/json");
    assert_eq!(r.body, "{\"status\": 100, \"error_message\": \"User not found\"}");
    assert_eq!(r.debug_msg, None);
}
