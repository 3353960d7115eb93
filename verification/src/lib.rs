//! A verified client library for a webhook-delivery management API.
//!
//! The library is the request/response pipeline of the client: base-URL
//! composition, authentication header injection, pagination clamping,
//! response decoding and the mapping of status codes to a typed error
//! taxonomy. The network itself is not here: the transport composes a
//! `RequestPlan` for each operation, the caller that owns the socket
//! executes it, and the response — status, content type, body text and
//! what a JSON parser made of the text — comes back through the verified
//! completion functions.
pub mod config;
pub mod error;
pub mod json;
pub mod pagination;
pub mod services;
pub mod strutil;
pub mod transport;

use vstd::prelude::*;

use config::HookfreightConfig;
use error::HookfreightError;
use services::{AppsService, DeliveriesService, EndpointsService, EventsService};
use strutil::spec_trim_trailing_slashes;
use transport::HFHttpClient;

verus! {

/// One client for the API: the four resource services sharing one
/// transport built from a configuration.
#[derive(Debug, Clone)]
pub struct Hookfreight {
    pub apps: AppsService,
    pub endpoints: EndpointsService,
    pub events: EventsService,
    pub deliveries: DeliveriesService,
}

impl Hookfreight {
    /// Builds a client: one transport from the configuration — base URL
    /// with trailing slashes trimmed, the API key as given — shared by
    /// all four services.
    pub fn new(config: HookfreightConfig) -> (r: Result<Hookfreight, HookfreightError>)
        ensures
            r matches Ok(c) && {
                &&& c.apps.http.base_url@ == spec_trim_trailing_slashes(config.base_url@)
                &&& c.apps.http.api_key == config.api_key
                &&& c.endpoints.http == c.apps.http
                &&& c.events.http == c.apps.http
                &&& c.deliveries.http == c.apps.http
            },
    {
        let http = match HFHttpClient::new(config) {
            Ok(h) => h,
            Err(e) => {
                return Err(e);
            },
        };
        Ok(
            Hookfreight {
                apps: AppsService::new(http.clone()),
                endpoints: EndpointsService::new(http.clone()),
                events: EventsService::new(http.clone()),
                deliveries: DeliveriesService::new(http),
            },
        )
    }
}

} // verus!
