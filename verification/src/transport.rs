//! The verified half of the HTTP transport.
//!
//! One request is an exchange with the network, which this crate does not
//! perform. The transport instead decides everything about it on both
//! sides of the wire: it composes the URL from the base URL and the
//! normalized path, picks the headers, renders the body, and — given the
//! status, content type and text that came back — decodes the body and
//! classifies failures. The caller that owns the socket executes a
//! `RequestPlan` verbatim and hands the response back unread.
use crate::config::HookfreightConfig;
use crate::error::{map_error, spec_map_error, HookfreightError};
use crate::json::{spec_json_text, to_json_text, JsonValue};
use crate::strutil::{
    collapse_double_slashes, contains_ci, spec_collapse, spec_contains, spec_lower,
    spec_trim_trailing_slashes, trim_trailing_slashes,
};
use vstd::prelude::*;
use vstd::string::StrSliceExecFns;
use vstd::string::StringExecFns;

verus! {

/// The HTTP method of a planned request.
#[derive(Debug, Clone, Copy, PartialEq, Eq, Structural)]
pub enum Method {
    Get,
    Post,
    Put,
    Delete,
}

/// Everything decided about one request before it is sent: method, full
/// URL, query entries, the three headers, and the body text.
#[derive(Debug)]
pub struct RequestPlan {
    pub method: Method,
    pub url: String,
    pub query: Option<Vec<(String, String)>>,
    pub content_type: String,
    pub user_agent: String,
    pub authorization: Option<String>,
    pub body: Option<String>,
}

/// A path rooted with a slash, doubled slashes replaced.
pub open spec fn spec_normalize_path(p: Seq<char>) -> Seq<char> {
    spec_collapse("/"@ + p)
}

/// Prefixes the path with `/` and replaces each doubled slash by a single
/// one.
pub fn normalize_path(path: &str) -> (r: String)
    ensures
        r@ == spec_normalize_path(path@),
{
    let full = String::from_str("/").concat(path);
    collapse_double_slashes(full.as_str())
}

/// Every normalized path is non-empty and starts with a slash.
pub proof fn lemma_normalize_rooted(path: Seq<char>)
    ensures
        spec_normalize_path(path).len() > 0,
        spec_normalize_path(path)[0] == '/',
{
    reveal_strlit("/");
    assert(("/"@ + path).len() > 0);
    assert(("/"@ + path)[0] == '/');
    crate::strutil::lemma_collapse_head("/"@ + path);
}

/// A path that does not itself start with a slash and holds no doubled
/// slash is only prefixed: normalization yields `/` followed by the path
/// unchanged.
pub proof fn lemma_normalize_prefixes(path: Seq<char>)
    requires
        path.len() == 0 || path[0] != '/',
        forall|i: int| 0 <= i < path.len() - 1 ==> !(#[trigger] path[i] == '/' && path[i + 1] == '/'),
    ensures
        spec_normalize_path(path) == "/"@ + path,
{
    reveal_strlit("/");
    let full = "/"@ + path;
    assert forall|i: int| 0 <= i < full.len() - 1 implies !(#[trigger] full[i] == '/' && full[i
        + 1] == '/') by {
        if i == 0 {
            assert(full[1] == path[0]);
        } else {
            assert(full[i] == path[i - 1]);
            assert(full[i + 1] == path[i]);
        }
    }
    crate::strutil::lemma_no_doubles_unchanged(full);
}

/// The User-Agent header value: the SDK name and its version.
pub open spec fn spec_user_agent() -> Seq<char> {
    "hookfreight-rust/"@ + "0.1.0"@
}

/// The Authorization header made from a configured key: a bearer header
/// when a key is present and non-empty, else nothing.
pub open spec fn spec_auth_matches(api_key: Option<String>, auth: Option<String>) -> bool {
    match api_key {
        Some(k) => if k@.len() > 0 {
            auth matches Some(a) && a@ == "Bearer "@ + k@
        } else {
            auth is None
        },
        None => auth is None,
    }
}

/// The content type names JSON, compared ASCII-case-insensitively.
pub open spec fn spec_ct_is_json(ct: Seq<char>) -> bool {
    spec_contains(spec_lower(ct), spec_lower("application/json"@))
}

/// How a response body decodes: an empty body is an empty object; a JSON
/// body is what the parser made of it, or the raw text as a string value
/// when parsing failed; any other body is the raw text as a string value.
pub open spec fn spec_decoded_body(
    raw: Seq<char>,
    ct: Seq<char>,
    parsed: Option<JsonValue>,
    r: JsonValue,
) -> bool {
    if raw.len() == 0 {
        r matches JsonValue::Obj(entries) && entries@.len() == 0
    } else if spec_ct_is_json(ct) {
        match parsed {
            Some(v) => r == v,
            None => r matches JsonValue::Str(s) && s@ == raw,
        }
    } else {
        r matches JsonValue::Str(s) && s@ == raw
    }
}

/// How one response is interpreted: a 2xx status succeeds with the decoded
/// body, anything else fails with the decoded body classified by status.
pub open spec fn spec_response(
    status: u16,
    raw: Seq<char>,
    ct: Seq<char>,
    parsed: Option<JsonValue>,
    r: Result<JsonValue, HookfreightError>,
) -> bool {
    if 200 <= status < 300 {
        r matches Ok(v) && spec_decoded_body(raw, ct, parsed, v)
    } else {
        r matches Err(e) && (crate::error::spec_api_error_of(e) matches Some(a)
            && spec_decoded_body(raw, ct, parsed, a.body) && spec_map_error(status, a.body, e))
    }
}

/// Decodes a response body. `parsed` is what the caller's JSON parser made
/// of `raw` (`None` when parsing failed); it is consulted only when the
/// content type says JSON, so a decode never fails: an unparsable or
/// non-JSON body is carried as the raw text.
pub fn decode_body(raw: &str, content_type: &str, parsed: Option<JsonValue>) -> (r: JsonValue)
    ensures
        spec_decoded_body(raw@, content_type@, parsed, r),
{
    if raw.is_empty() {
        JsonValue::Obj(Vec::new())
    } else if contains_ci(content_type, "application/json") {
        match parsed {
            Some(v) => v,
            None => JsonValue::Str(raw.to_owned()),
        }
    } else {
        JsonValue::Str(raw.to_owned())
    }
}

/// Interprets one response: the decoded body on a 2xx status, the
/// classified error otherwise.
pub fn handle_response(
    status: u16,
    content_type: &str,
    raw: &str,
    parsed: Option<JsonValue>,
) -> (r: Result<JsonValue, HookfreightError>)
    ensures
        spec_response(status, raw@, content_type@, parsed, r),
{
    let body = decode_body(raw, content_type, parsed);
    if 200 <= status && status < 300 {
        Ok(body)
    } else {
        Err(map_error(status, body))
    }
}

/// A plan carries the three standard headers for the given client.
pub open spec fn spec_headers_ok(c: HFHttpClient, r: RequestPlan) -> bool {
    &&& r.content_type@ == "application/json"@
    &&& r.user_agent@ == spec_user_agent()
    &&& spec_auth_matches(c.api_key, r.authorization)
}

/// A plan is the given request composed for the given client.
pub open spec fn spec_plan_matches(
    c: HFHttpClient,
    method: Method,
    path: Seq<char>,
    query: Option<Vec<(String, String)>>,
    body: Option<JsonValue>,
    r: RequestPlan,
) -> bool {
    &&& r.method == method
    &&& r.url@ == c.base_url@ + spec_normalize_path(path)
    &&& r.query == query
    &&& spec_headers_ok(c, r)
    &&& match (body, r.body) {
        (Some(b), Some(t)) => t@ == spec_json_text(b),
        (None, None) => true,
        _ => false,
    }
}

/// Composes requests and interprets responses for one configured client.
/// It holds the trimmed base URL and the API key; the network half that
/// executes its plans lives with the caller.
#[derive(Debug)]
pub struct HFHttpClient {
    pub base_url: String,
    pub api_key: Option<String>,
}

impl Clone for HFHttpClient {
    /// A clone composes the very same requests.
    fn clone(&self) -> (r: Self)
        ensures
            r == *self,
    {
        let api_key: Option<String> = match &self.api_key {
            Some(k) => Some(k.clone()),
            None => None,
        };
        HFHttpClient { base_url: self.base_url.clone(), api_key }
    }
}

impl HFHttpClient {
    /// A client for a configuration: the base URL is kept with trailing
    /// slashes trimmed. Construction itself cannot fail.
    pub fn new(config: HookfreightConfig) -> (r: Result<HFHttpClient, HookfreightError>)
        ensures
            r matches Ok(c) && c.base_url@ == spec_trim_trailing_slashes(config.base_url@)
                && c.api_key == config.api_key,
    {
        Ok(
            HFHttpClient {
                base_url: trim_trailing_slashes(config.base_url.as_str()),
                api_key: config.api_key,
            },
        )
    }

    /// Composes one request: URL from base URL and normalized path, the
    /// standard headers, the query as given, the body as canonical JSON.
    pub fn request(
        &self,
        method: Method,
        path: &str,
        query: Option<Vec<(String, String)>>,
        body: Option<&JsonValue>,
    ) -> (r: RequestPlan)
        ensures
            spec_plan_matches(
                *self,
                method,
                path@,
                query,
                match body {
                    Some(b) => Some(*b),
                    None => None,
                },
                r,
            ),
    {
        let url = self.base_url.clone().concat(normalize_path(path).as_str());
        let authorization: Option<String> = match &self.api_key {
            Some(k) => if k.as_str().unicode_len() > 0 {
                Some(String::from_str("Bearer ").concat(k.as_str()))
            } else {
                None
            },
            None => None,
        };
        let body_text: Option<String> = match body {
            Some(b) => Some(to_json_text(b)),
            None => None,
        };
        RequestPlan {
            method,
            url,
            query,
            content_type: String::from_str("application/json"),
            user_agent: String::from_str("hookfreight-rust/").concat("0.1.0"),
            authorization,
            body: body_text,
        }
    }

    /// A GET request plan.
    pub fn get(&self, path: &str, query: Option<Vec<(String, String)>>) -> (r: RequestPlan)
        ensures
            spec_plan_matches(*self, Method::Get, path@, query, None, r),
    {
        self.request(Method::Get, path, query, None)
    }

    /// A POST request plan.
    pub fn post(&self, path: &str, body: Option<&JsonValue>) -> (r: RequestPlan)
        ensures
            spec_plan_matches(
                *self,
                Method::Post,
                path@,
                None,
                match body {
                    Some(b) => Some(*b),
                    None => None,
                },
                r,
            ),
    {
        self.request(Method::Post, path, None, body)
    }

    /// A PUT request plan.
    pub fn put(&self, path: &str, body: Option<&JsonValue>) -> (r: RequestPlan)
        ensures
            spec_plan_matches(
                *self,
                Method::Put,
                path@,
                None,
                match body {
                    Some(b) => Some(*b),
                    None => None,
                },
                r,
            ),
    {
        self.request(Method::Put, path, None, body)
    }

    /// A DELETE request plan.
    pub fn delete(&self, path: &str) -> (r: RequestPlan)
        ensures
            spec_plan_matches(*self, Method::Delete, path@, None, None, r),
    {
        self.request(Method::Delete, path, None, None)
    }
}

} // verus!
