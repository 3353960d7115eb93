//! The four resource services: thin façades that translate domain
//! operations into request plans and interpret the responses.
//!
//! Every listing operation routes its parameters through the normalizer
//! with the resource's page-size maximum. Value operations unwrap the
//! conventional `data` envelope from a successful body; the fire-and-forget
//! operations (`retry`, `replay`) only report success or failure.
use crate::error::{spec_api_error_of, spec_map_error, HookfreightError};
use crate::json::{obj_find, spec_obj_get, JsonValue};
use crate::pagination::{
    clamp, spec_clamp_entries, spec_query_view, MAX_APPS_LIMIT, MAX_DELIVERIES_LIMIT,
    MAX_ENDPOINTS_LIMIT, MAX_EVENTS_LIMIT,
};
use crate::transport::{
    handle_response, spec_ct_is_json, spec_decoded_body, spec_plan_matches, HFHttpClient, Method,
    RequestPlan,
};
use vstd::prelude::*;
use vstd::string::StringExecFns;

verus! {

/// The `data` envelope unwrapped: the value under `data` when the payload
/// is an object holding that key, else the payload itself.
pub open spec fn spec_unwrap_data(payload: JsonValue, r: JsonValue) -> bool {
    match payload {
        JsonValue::Obj(entries) => match spec_obj_get(entries@, "data"@) {
            Some(v) => r == v,
            None => r == payload,
        },
        _ => r == payload,
    }
}

/// Unwraps the conventional response envelope.
pub fn unwrap_data(payload: JsonValue) -> (r: JsonValue)
    ensures
        spec_unwrap_data(payload, r),
{
    match payload {
        JsonValue::Obj(mut entries) => match obj_find(&entries, "data") {
            Some(i) => {
                let entry = entries.remove(i);
                entry.1
            },
            None => JsonValue::Obj(entries),
        },
        other => other,
    }
}

/// The parameters normalize to the given query entries, `None` standing
/// for "no parameters".
pub open spec fn spec_query_normalized(
    params: Option<Seq<(String, JsonValue)>>,
    max: int,
    q: Option<Vec<(String, String)>>,
) -> bool {
    match params {
        None => q is None,
        Some(src) => {
            let mapped = spec_clamp_entries(src, max);
            if mapped.len() == 0 {
                q is None
            } else {
                q matches Some(v) && spec_query_view(v@) == mapped
            }
        },
    }
}

/// The view of an optional borrowed parameter list.
pub open spec fn spec_params_view(params: Option<&Vec<(String, JsonValue)>>) -> Option<
    Seq<(String, JsonValue)>,
> {
    match params {
        Some(s) => Some(s@),
        None => None,
    }
}

/// What a successful response yields once decoded and unwrapped.
pub open spec fn spec_unwrapped_body(
    raw: Seq<char>,
    ct: Seq<char>,
    parsed: Option<JsonValue>,
    v: JsonValue,
) -> bool {
    if raw.len() == 0 {
        v matches JsonValue::Obj(e) && e@.len() == 0
    } else if spec_ct_is_json(ct) {
        match parsed {
            Some(b) => spec_unwrap_data(b, v),
            None => v matches JsonValue::Str(s) && s@ == raw,
        }
    } else {
        v matches JsonValue::Str(s) && s@ == raw
    }
}

/// The error a failed response classifies to: its body is the decoded one,
/// its kind follows the status code.
pub open spec fn spec_failed_response(
    status: u16,
    raw: Seq<char>,
    ct: Seq<char>,
    parsed: Option<JsonValue>,
    e: HookfreightError,
) -> bool {
    spec_api_error_of(e) matches Some(a) && spec_decoded_body(raw, ct, parsed, a.body)
        && spec_map_error(status, a.body, e)
}

/// Finishes a value operation: on a 2xx status the decoded body with its
/// `data` envelope unwrapped, otherwise the classified error.
pub fn complete(status: u16, content_type: &str, raw: &str, parsed: Option<JsonValue>) -> (r:
    Result<JsonValue, HookfreightError>)
    ensures
        200 <= status < 300 ==> (r matches Ok(v) && spec_unwrapped_body(
            raw@,
            content_type@,
            parsed,
            v,
        )),
        !(200 <= status < 300) ==> (r matches Err(e) && spec_failed_response(
            status,
            raw@,
            content_type@,
            parsed,
            e,
        )),
{
    match handle_response(status, content_type, raw, parsed) {
        Ok(body) => Ok(unwrap_data(body)),
        Err(e) => Err(e),
    }
}

/// Finishes a fire-and-forget operation: success on a 2xx status with the
/// payload discarded, otherwise the classified error.
pub fn complete_unit(status: u16, content_type: &str, raw: &str, parsed: Option<JsonValue>) -> (r:
    Result<(), HookfreightError>)
    ensures
        200 <= status < 300 ==> r is Ok,
        !(200 <= status < 300) ==> (r matches Err(e) && spec_failed_response(
            status,
            raw@,
            content_type@,
            parsed,
            e,
        )),
{
    match handle_response(status, content_type, raw, parsed) {
        Ok(_) => Ok(()),
        Err(e) => Err(e),
    }
}

/// Operations on applications.
#[derive(Debug, Clone)]
pub struct AppsService {
    pub http: HFHttpClient,
}

impl AppsService {
    pub(crate) fn new(http: HFHttpClient) -> (r: AppsService)
        ensures
            r.http == http,
    {
        AppsService { http }
    }

    /// Plans the listing of applications, parameters normalized with the
    /// applications page-size maximum.
    pub fn list(&self, params: Option<&Vec<(String, JsonValue)>>) -> (r: RequestPlan)
        ensures
            spec_plan_matches(self.http, Method::Get, "/apps"@, r.query, None, r),
            spec_query_normalized(spec_params_view(params), MAX_APPS_LIMIT as int, r.query),
    {
        let query = clamp(params, MAX_APPS_LIMIT);
        self.http.get("/apps", query)
    }

    /// Plans the creation of an application from a JSON payload.
    pub fn create(&self, params: &JsonValue) -> (r: RequestPlan)
        ensures
            spec_plan_matches(self.http, Method::Post, "/apps"@, None, Some(*params), r),
    {
        self.http.post("/apps", Some(params))
    }

    /// Plans fetching one application.
    pub fn get(&self, app_id: &str) -> (r: RequestPlan)
        ensures
            spec_plan_matches(self.http, Method::Get, "/apps/"@ + app_id@, None, None, r),
    {
        let path = String::from_str("/apps/").concat(app_id);
        self.http.get(path.as_str(), None)
    }

    /// Plans updating one application from a JSON payload.
    pub fn update(&self, app_id: &str, params: &JsonValue) -> (r: RequestPlan)
        ensures
            spec_plan_matches(
                self.http,
                Method::Put,
                "/apps/"@ + app_id@,
                None,
                Some(*params),
                r,
            ),
    {
        let path = String::from_str("/apps/").concat(app_id);
        self.http.put(path.as_str(), Some(params))
    }

    /// Plans deleting one application.
    pub fn delete(&self, app_id: &str) -> (r: RequestPlan)
        ensures
            spec_plan_matches(self.http, Method::Delete, "/apps/"@ + app_id@, None, None, r),
    {
        let path = String::from_str("/apps/").concat(app_id);
        self.http.delete(path.as_str())
    }
}

/// Operations on endpoints.
#[derive(Debug, Clone)]
pub struct EndpointsService {
    pub http: HFHttpClient,
}

impl EndpointsService {
    pub(crate) fn new(http: HFHttpClient) -> (r: EndpointsService)
        ensures
            r.http == http,
    {
        EndpointsService { http }
    }

    /// Plans the listing of the endpoints of one application, parameters
    /// normalized with the endpoints page-size maximum.
    pub fn list(&self, app_id: &str, params: Option<&Vec<(String, JsonValue)>>) -> (r: RequestPlan)
        ensures
            spec_plan_matches(
                self.http,
                Method::Get,
                "/apps/"@ + app_id@ + "/endpoints"@,
                r.query,
                None,
                r,
            ),
            spec_query_normalized(spec_params_view(params), MAX_ENDPOINTS_LIMIT as int, r.query),
    {
        let query = clamp(params, MAX_ENDPOINTS_LIMIT);
        let path = String::from_str("/apps/").concat(app_id).concat("/endpoints");
        self.http.get(path.as_str(), query)
    }

    /// Plans the creation of an endpoint from a JSON payload.
    pub fn create(&self, params: &JsonValue) -> (r: RequestPlan)
        ensures
            spec_plan_matches(self.http, Method::Post, "/endpoints"@, None, Some(*params), r),
    {
        self.http.post("/endpoints", Some(params))
    }

    /// Plans fetching one endpoint.
    pub fn get(&self, endpoint_id: &str) -> (r: RequestPlan)
        ensures
            spec_plan_matches(
                self.http,
                Method::Get,
                "/endpoints/"@ + endpoint_id@,
                None,
                None,
                r,
            ),
    {
        let path = String::from_str("/endpoints/").concat(endpoint_id);
        self.http.get(path.as_str(), None)
    }

    /// Plans updating one endpoint from a JSON payload.
    pub fn update(&self, endpoint_id: &str, params: &JsonValue) -> (r: RequestPlan)
        ensures
            spec_plan_matches(
                self.http,
                Method::Put,
                "/endpoints/"@ + endpoint_id@,
                None,
                Some(*params),
                r,
            ),
    {
        let path = String::from_str("/endpoints/").concat(endpoint_id);
        self.http.put(path.as_str(), Some(params))
    }

    /// Plans deleting one endpoint.
    pub fn delete(&self, endpoint_id: &str) -> (r: RequestPlan)
        ensures
            spec_plan_matches(
                self.http,
                Method::Delete,
                "/endpoints/"@ + endpoint_id@,
                None,
                None,
                r,
            ),
    {
        let path = String::from_str("/endpoints/").concat(endpoint_id);
        self.http.delete(path.as_str())
    }
}

/// Operations on events.
#[derive(Debug, Clone)]
pub struct EventsService {
    pub http: HFHttpClient,
}

impl EventsService {
    pub(crate) fn new(http: HFHttpClient) -> (r: EventsService)
        ensures
            r.http == http,
    {
        EventsService { http }
    }

    /// Plans the listing of events, parameters normalized with the events
    /// page-size maximum.
    pub fn list(&self, params: Option<&Vec<(String, JsonValue)>>) -> (r: RequestPlan)
        ensures
            spec_plan_matches(self.http, Method::Get, "/events"@, r.query, None, r),
            spec_query_normalized(spec_params_view(params), MAX_EVENTS_LIMIT as int, r.query),
    {
        let query = clamp(params, MAX_EVENTS_LIMIT);
        self.http.get("/events", query)
    }

    /// Plans fetching one event.
    pub fn get(&self, event_id: &str) -> (r: RequestPlan)
        ensures
            spec_plan_matches(self.http, Method::Get, "/events/"@ + event_id@, None, None, r),
    {
        let path = String::from_str("/events/").concat(event_id);
        self.http.get(path.as_str(), None)
    }

    /// Plans the listing of the events of one endpoint, parameters
    /// normalized with the events page-size maximum.
    pub fn list_by_endpoint(
        &self,
        endpoint_id: &str,
        params: Option<&Vec<(String, JsonValue)>>,
    ) -> (r: RequestPlan)
        ensures
            spec_plan_matches(
                self.http,
                Method::Get,
                "/endpoints/"@ + endpoint_id@ + "/events"@,
                r.query,
                None,
                r,
            ),
            spec_query_normalized(spec_params_view(params), MAX_EVENTS_LIMIT as int, r.query),
    {
        let query = clamp(params, MAX_EVENTS_LIMIT);
        let path = String::from_str("/endpoints/").concat(endpoint_id).concat("/events");
        self.http.get(path.as_str(), query)
    }

    /// Plans re-triggering delivery of one event; the response carries no
    /// payload of interest.
    pub fn replay(&self, event_id: &str) -> (r: RequestPlan)
        ensures
            spec_plan_matches(
                self.http,
                Method::Post,
                "/events/"@ + event_id@ + "/replay"@,
                None,
                None,
                r,
            ),
    {
        let path = String::from_str("/events/").concat(event_id).concat("/replay");
        self.http.post(path.as_str(), None)
    }
}

/// Operations on deliveries.
#[derive(Debug, Clone)]
pub struct DeliveriesService {
    pub http: HFHttpClient,
}

impl DeliveriesService {
    pub(crate) fn new(http: HFHttpClient) -> (r: DeliveriesService)
        ensures
            r.http == http,
    {
        DeliveriesService { http }
    }

    /// Plans the listing of deliveries, parameters normalized with the
    /// deliveries page-size maximum.
    pub fn list(&self, params: Option<&Vec<(String, JsonValue)>>) -> (r: RequestPlan)
        ensures
            spec_plan_matches(self.http, Method::Get, "/deliveries"@, r.query, None, r),
            spec_query_normalized(spec_params_view(params), MAX_DELIVERIES_LIMIT as int, r.query),
    {
        let query = clamp(params, MAX_DELIVERIES_LIMIT);
        self.http.get("/deliveries", query)
    }

    /// Plans the listing of the deliveries of one event, parameters
    /// normalized with the deliveries page-size maximum.
    pub fn list_by_event(&self, event_id: &str, params: Option<&Vec<(String, JsonValue)>>) -> (r:
        RequestPlan)
        ensures
            spec_plan_matches(
                self.http,
                Method::Get,
                "/events/"@ + event_id@ + "/deliveries"@,
                r.query,
                None,
                r,
            ),
            spec_query_normalized(spec_params_view(params), MAX_DELIVERIES_LIMIT as int, r.query),
    {
        let query = clamp(params, MAX_DELIVERIES_LIMIT);
        let path = String::from_str("/events/").concat(event_id).concat("/deliveries");
        self.http.get(path.as_str(), query)
    }

    /// Plans one more delivery attempt; the response carries no payload of
    /// interest.
    pub fn retry(&self, delivery_id: &str) -> (r: RequestPlan)
        ensures
            spec_plan_matches(
                self.http,
                Method::Post,
                "/deliveries/"@ + delivery_id@ + "/retry"@,
                None,
                None,
                r,
            ),
    {
        let path = String::from_str("/deliveries/").concat(delivery_id).concat("/retry");
        self.http.post(path.as_str(), None)
    }

    /// Plans fetching the delivery queue statistics.
    pub fn queue_stats(&self) -> (r: RequestPlan)
        ensures
            spec_plan_matches(self.http, Method::Get, "/deliveries/queue/stats"@, None, None, r),
    {
        self.http.get("/deliveries/queue/stats", None)
    }
}

} // verus!
