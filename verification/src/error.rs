//! The typed error taxonomy: one kind per recognised HTTP status code,
//! plus a kind for transport-level failures.
use crate::json::{spec_obj_get, JsonValue};
use crate::strutil::{spec_nat_text, u64_text};
use vstd::prelude::*;
use vstd::string::StringExecFns;

verus! {

/// The view of an optional message string.
pub open spec fn spec_opt_text(m: Option<String>) -> Option<Seq<char>> {
    match m {
        Some(s) => Some(s@),
        None => None,
    }
}

/// The optional human-readable message of a failed call: the string under
/// the `message` key when the body is an object holding one.
pub open spec fn spec_server_message(body: JsonValue) -> Option<Seq<char>> {
    match body {
        JsonValue::Obj(entries) => match spec_obj_get(entries@, "message"@) {
            Some(JsonValue::Str(s)) => Some(s@),
            _ => None,
        },
        _ => None,
    }
}

/// The text an API error shows: the server's message when there is one,
/// else a generic line naming the status code.
pub open spec fn spec_error_message(status: u16, server_message: Option<Seq<char>>) -> Seq<char> {
    match server_message {
        Some(m) => m,
        None => "API request failed with status "@ + spec_nat_text(status as nat),
    }
}

/// A non-2xx response: its status code, its decoded body, and the server's
/// message when the body carries one.
#[derive(Debug)]
pub struct ApiError {
    pub status: u16,
    pub body: JsonValue,
    pub server_message: Option<String>,
}

impl ApiError {
    /// Builds an error from a status code and a decoded body, extracting
    /// the optional `message` field.
    pub fn new(status: u16, body: JsonValue) -> (r: ApiError)
        ensures
            r.status == status,
            r.body == body,
            spec_opt_text(r.server_message) == spec_server_message(body),
    {
        let server_message: Option<String> = match &body {
            JsonValue::Obj(entries) => match crate::json::obj_get(entries, "message") {
                Some(JsonValue::Str(s)) => Some(s.clone()),
                _ => None,
            },
            _ => None,
        };
        ApiError { status, body, server_message }
    }

    /// The displayed text of this error.
    pub fn message(&self) -> (r: String)
        ensures
            r@ == spec_error_message(self.status, spec_opt_text(self.server_message)),
    {
        match &self.server_message {
            Some(m) => m.clone(),
            None => {
                let mut text = String::from_str("API request failed with status ");
                let digits = u64_text(self.status as u64);
                text.append(digits.as_str());
                text
            },
        }
    }
}

/// Everything a call can fail with: one kind per recognised status code, a
/// generic kind for other non-2xx statuses, and a kind for failures below
/// HTTP, carrying only a description.
#[derive(Debug)]
pub enum HookfreightError {
    Validation(ApiError),
    Authentication(ApiError),
    Permission(ApiError),
    NotFound(ApiError),
    Api(ApiError),
    Connection(String),
}

impl HookfreightError {
    /// The displayed text: the inner error's text, or the description of a
    /// connection failure.
    pub fn message(&self) -> (r: String)
        ensures
            match spec_api_error_of(*self) {
                Some(a) => r@ == spec_error_message(a.status, spec_opt_text(a.server_message)),
                None => self matches HookfreightError::Connection(d) && r@ == d@,
            },
    {
        match self {
            HookfreightError::Validation(e) => e.message(),
            HookfreightError::Authentication(e) => e.message(),
            HookfreightError::Permission(e) => e.message(),
            HookfreightError::NotFound(e) => e.message(),
            HookfreightError::Api(e) => e.message(),
            HookfreightError::Connection(d) => d.clone(),
        }
    }
}

/// The API error an error value carries, if its kind carries one.
pub open spec fn spec_api_error_of(e: HookfreightError) -> Option<ApiError> {
    match e {
        HookfreightError::Validation(a) => Some(a),
        HookfreightError::Authentication(a) => Some(a),
        HookfreightError::Permission(a) => Some(a),
        HookfreightError::NotFound(a) => Some(a),
        HookfreightError::Api(a) => Some(a),
        HookfreightError::Connection(_) => None,
    }
}

/// Which error kind a non-2xx status maps to, with the error it carries.
pub open spec fn spec_map_error(status: u16, body: JsonValue, e: HookfreightError) -> bool {
    let inner = spec_api_error_of(e);
    &&& match inner {
        Some(a) => {
            &&& a.status == status
            &&& a.body == body
            &&& spec_opt_text(a.server_message) == spec_server_message(body)
        },
        None => false,
    }
    &&& if status == 400 {
        e is Validation
    } else if status == 401 {
        e is Authentication
    } else if status == 403 {
        e is Permission
    } else if status == 404 {
        e is NotFound
    } else {
        e is Api
    }
}

/// Classifies a failed response by its status code:
/// 400 is a validation error, 401 an authentication error, 403 a
/// permission error, 404 a missing resource, anything else a generic API
/// error.
pub fn map_error(status: u16, body: JsonValue) -> (r: HookfreightError)
    ensures
        spec_map_error(status, body, r),
{
    let api_error = ApiError::new(status, body);
    match status {
        400 => HookfreightError::Validation(api_error),
        401 => HookfreightError::Authentication(api_error),
        403 => HookfreightError::Permission(api_error),
        404 => HookfreightError::NotFound(api_error),
        _ => HookfreightError::Api(api_error),
    }
}

} // verus!
