//! Error answers of the HTTP API: the error codes, the error value and the
//! JSON body that is sent back for it.

use crate::decimal::{push_decimal, spec_decimal};
use vstd::prelude::*;

verus! {

/// The error codes that the API reports to its clients.
#[derive(Debug, Clone, Copy, PartialEq, Eq, Structural)]
pub enum ApiErrorCodes {
    JsonToString,
    JsonParse,
    UnexpectedTimeError,
    NoDbConnection,
    DbQuery,
    DbExecute,
    DbBulkInsert,
    UserNotFound,
}

/// The number under which a client sees each error code.
pub open spec fn spec_error_number(code: ApiErrorCodes) -> u32 {
    match code {
        ApiErrorCodes::JsonToString => 10,
        ApiErrorCodes::JsonParse => 11,
        ApiErrorCodes::UnexpectedTimeError => 12,
        ApiErrorCodes::NoDbConnection => 20,
        ApiErrorCodes::DbQuery => 21,
        ApiErrorCodes::DbExecute => 22,
        ApiErrorCodes::DbBulkInsert => 23,
        ApiErrorCodes::UserNotFound => 100,
    }
}

impl ApiErrorCodes {
    /// The number of this code in error bodies.
    pub fn get_int_code(&self) -> (n: u32)
        ensures
            n == spec_error_number(*self),
    {
        match self {
            ApiErrorCodes::JsonToString => 10,
            ApiErrorCodes::JsonParse => 11,
            ApiErrorCodes::UnexpectedTimeError => 12,
            ApiErrorCodes::NoDbConnection => 20,
            ApiErrorCodes::DbQuery => 21,
            ApiErrorCodes::DbExecute => 22,
            ApiErrorCodes::DbBulkInsert => 23,
            ApiErrorCodes::UserNotFound => 100,
        }
    }
}

/// An error answer: the HTTP status, the API code, the message for the end
/// user and an optional message for the developer.
#[derive(Debug)]
pub struct HttpErr {
    pub http_status_code: u16,
    pub api_error_code: ApiErrorCodes,
    pub msg: &'static str,
    pub debug_msg: Option<String>,
}

/// The status, the content type, the body and the developer message of an
/// error answer.
pub struct ErrorResponse {
    pub status: u16,
    pub content_type: &'static str,
    pub body: String,
    pub debug_msg: Option<String>,
}

/// Whether a number is a status code that the HTTP layer accepts.
pub open spec fn is_valid_status(code: u16) -> bool {
    100 <= code && code < 1000
}

/// The status that is sent for a requested status: the requested one where
/// the HTTP layer accepts it, else 400 (Bad Request).
pub open spec fn spec_effective_status(code: u16) -> u16 {
    if is_valid_status(code) { code } else { 400 }
}

/// The JSON body of an error answer:
/// `{"status": <number>, "error_message": "<msg>"}`, the message not escaped.
pub open spec fn spec_error_body(number: u32, msg: Seq<char>) -> Seq<char> {
    "{\"status\": "@ + spec_decimal(number as nat) + ", \"error_message\": \""@ + msg + "\"}"@
}

/// `hyper::StatusCode::from_u16`: the source accepts exactly the numbers
/// from 100 to 999; this tells whether it accepted `code`.
#[verifier::external_body]
fn status_code_accepted(code: u16) -> (accepted: bool)
    ensures
        accepted == is_valid_status(code),
{
    hyper::StatusCode::from_u16(code).is_ok()
}

/// `format!("{:?}", e)`: the text of `e` as its `Debug` impl writes it.
/// Nothing is stated of that text.
#[verifier::external_body]
fn debug_text<E: std::fmt::Debug>(e: &E) -> String {
    format!("{:?}", e)
}

impl HttpErr {
    pub fn new(
        http_status_code: u16,
        api_error_code: ApiErrorCodes,
        msg: &'static str,
        debug_msg: Option<String>,
    ) -> (err: Self)
        ensures
            err.http_status_code == http_status_code,
            err.api_error_code == api_error_code,
            err.msg == msg,
            err.debug_msg == debug_msg,
    {
        Self { http_status_code, api_error_code, msg, debug_msg }
    }

    /// The status that the answer carries.
    pub fn status(&self) -> (s: u16)
        ensures
            s == spec_effective_status(self.http_status_code),
    {
        if status_code_accepted(self.http_status_code) {
            self.http_status_code
        } else {
            400
        }
    }

    /// The JSON body that the end user sees.
    pub fn body(&self) -> (b: String)
        ensures
            b@ == spec_error_body(spec_error_number(self.api_error_code), self.msg@),
    {
        let number = self.api_error_code.get_int_code();
        let mut b = String::from_str("{\"status\": ");
        push_decimal(&mut b, number as u128);
        b.append(", \"error_message\": \"");
        b.append(self.msg);
        b.append("\"}");
        b
    }

    /// Everything that the answer to the client is made of.
    pub fn get_res(&self) -> (r: ErrorResponse)
        ensures
            r.status == spec_effective_status(self.http_status_code),
            r.content_type@ == "application/json"@,
            r.body@ == spec_error_body(spec_error_number(self.api_error_code), self.msg@),
            r.debug_msg == self.debug_msg,
    {
        ErrorResponse {
            status: self.status(),
            content_type: "application/json",
            body: self.body(),
            debug_msg: self.debug_msg.clone(),
        }
    }
}

/// The error for a value that could not be turned into JSON: status 422,
/// code `JsonToString`, and the error's debug text for the developer.
pub fn json_to_string_err<E: std::error::Error>(e: E) -> (err: HttpErr)
    ensures
        err.http_status_code == 422,
        err.api_error_code == ApiErrorCodes::JsonToString,
        err.msg@ == "Err in json"@,
        err.debug_msg is Some,
        "err in json to string: "@.is_prefix_of(err.debug_msg->0@),
{
    let mut debug = String::from_str("err in json to string: ");
    let text = debug_text(&e);
    debug.append(text.as_str());
    HttpErr::new(422, ApiErrorCodes::JsonToString, "Err in json", Some(debug))
}

/// Every error answer carries a status that the HTTP layer accepts, and a
/// status that the HTTP layer accepts is sent unchanged.
pub proof fn lemma_effective_status_is_valid(code: u16)
    ensures
        is_valid_status(spec_effective_status(code)),
        is_valid_status(code) ==> spec_effective_status(code) == code,
{
}

} // verus!
