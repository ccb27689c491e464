//! Messages for the notifier service: where captured payloads are sent.

use crate::config::Config;
use vstd::prelude::*;
use vstd::slice::slice_to_vec;
use vstd::string::StringExecFns;

verus! {

/// One fire-and-forget delivery for the transport to carry out.
pub struct Notification {
    /// Full address of the endpoint.
    pub url: String,
    /// The captured bytes.
    pub body: Vec<u8>,
    /// Per-request timeout in milliseconds.
    pub timeout_ms: u64,
}

/// Endpoint path for outbound payloads.
pub open spec fn request_path() -> Seq<char> {
    "/notify/request"@
}

/// Endpoint path for inbound payloads.
pub open spec fn response_path() -> Seq<char> {
    "/notify/response"@
}

/// `notification` delivers exactly `bytes` to `path` under the configured
/// host, with the configured timeout.
pub open spec fn delivers(
    notification: Notification,
    config: Config,
    path: Seq<char>,
    bytes: Seq<u8>,
) -> bool {
    &&& notification.url@ == config.notifier_host@ + path
    &&& notification.body@ == bytes
    &&& notification.timeout_ms == config.timeout_ms
}

/// The delivery of an outbound payload.
pub fn notify_request(config: &Config, data: &[u8]) -> (notification: Notification)
    ensures
        delivers(notification, *config, request_path(), data@),
{
    let mut url = config.notifier_host.clone();
    url.append("/notify/request");
    Notification { url, body: slice_to_vec(data), timeout_ms: config.timeout_ms }
}

/// The delivery of an inbound payload.
pub fn notify_response(config: &Config, data: &[u8]) -> (notification: Notification)
    ensures
        delivers(notification, *config, response_path(), data@),
{
    let mut url = config.notifier_host.clone();
    url.append("/notify/response");
    Notification { url, body: slice_to_vec(data), timeout_ms: config.timeout_ms }
}

} // verus!
