use vstd::prelude::*;
use crate::errors::SensorError;
use crate::models::HueBridge;

verus! {

/// The host name under which a bridge answers on most local networks.
pub const HUE_DOMAIN: &'static str = "hue-bridge";

/// The public service that lists the bridges of the network one asks from.
pub const HUE_DISCOVERY_URL: &'static str = "https://discovery.meethue.com/";

/// The request header that carries the application key.
pub const HUE_APPLICATION_KEY_HEADER: &'static str = "hue-application-key";

/// The path of the bridge's device listing.
pub const HUE_DEVICE_URL: &'static str = "/clip/v2/resource/device";

/// The path of the bridge's temperature report.
pub const HUE_TEMPERATURE_URL: &'static str = "/clip/v2/resource/temperature";

/// A `GET` request, as plain values.
///
/// Where `application_key` is present it goes out in the header
/// [`HUE_APPLICATION_KEY_HEADER`]. Where `verify_certificate` is `false` the
/// server's certificate is not checked: a bridge presents a certificate
/// that it has signed itself.
#[derive(Debug, PartialEq, Eq)]
pub struct BridgeRequest {
    pub url: String,
    pub application_key: Option<String>,
    pub verify_certificate: bool,
}

/// What a [`BridgeRequest`] stands for.
pub struct RequestView {
    pub url: Seq<char>,
    pub application_key: Option<Seq<char>>,
    pub verify_certificate: bool,
}

impl View for BridgeRequest {
    type V = RequestView;

    open spec fn view(&self) -> RequestView {
        RequestView {
            url: self.url@,
            application_key: match self.application_key {
                Some(key) => Some(key@),
                None => None,
            },
            verify_certificate: self.verify_certificate,
        }
    }
}

/// The request that asks the well-known host name whether a bridge answers.
pub open spec fn probe() -> RequestView {
    RequestView {
        url: "http://"@ + HUE_DOMAIN@ + "/api/0/config"@,
        application_key: None,
        verify_certificate: true,
    }
}

/// The request that asks the discovery service for the bridges it knows.
pub open spec fn discovery() -> RequestView {
    RequestView { url: HUE_DISCOVERY_URL@, application_key: None, verify_certificate: true }
}

/// The request for the resource at `path` of the bridge at `address`.
pub open spec fn resource(address: Seq<char>, path: Seq<char>, key: Seq<char>) -> RequestView {
    RequestView {
        url: "https://"@ + address + path,
        application_key: Some(key),
        verify_certificate: false,
    }
}

/// Builds the request that asks the well-known host name.
pub fn probe_request() -> (request: BridgeRequest)
    ensures
        request@ == probe(),
{
    let mut url = String::from_str("http://");
    url.append(HUE_DOMAIN);
    url.append("/api/0/config");
    BridgeRequest { url, application_key: None, verify_certificate: true }
}

/// Builds the request that asks the discovery service.
pub fn discovery_request() -> (request: BridgeRequest)
    ensures
        request@ == discovery(),
{
    BridgeRequest {
        url: String::from_str(HUE_DISCOVERY_URL),
        application_key: None,
        verify_certificate: true,
    }
}

/// Builds an authenticated request for the resource at `path`.
fn resource_request(address: &str, path: &str, key: &str) -> (request: BridgeRequest)
    ensures
        request@ == resource(address@, path@, key@),
{
    let mut url = String::from_str("https://");
    url.append(address);
    url.append(path);
    BridgeRequest { url, application_key: Some(String::from_str(key)), verify_certificate: false }
}

/// Builds the request for the device listing of the bridge at
/// `bridge_ip_address`.
pub fn devices_request(bridge_ip_address: &str, hue_application_key: &str) -> (request:
    BridgeRequest)
    ensures
        request@ == resource(bridge_ip_address@, HUE_DEVICE_URL@, hue_application_key@),
{
    resource_request(bridge_ip_address, HUE_DEVICE_URL, hue_application_key)
}

/// Builds the request for the temperature report of the bridge at
/// `bridge_ip_address`.
pub fn temperatures_request(bridge_ip_address: &str, hue_application_key: &str) -> (request:
    BridgeRequest)
    ensures
        request@ == resource(bridge_ip_address@, HUE_TEMPERATURE_URL@, hue_application_key@),
{
    resource_request(bridge_ip_address, HUE_TEMPERATURE_URL, hue_application_key)
}

/// Where the search for the bridge stands.
#[derive(Clone, Copy, Debug, PartialEq, Eq, Structural)]
pub enum DiscoveryState {
    /// The well-known host name has been asked.
    Probing,
    /// The discovery service has been asked.
    Asking,
    /// The search has ended.
    Finished,
}

/// What came back from the network.
#[derive(Debug)]
pub enum DiscoveryEvent {
    /// The server answered with this HTTP status.
    Status(u16),
    /// The request failed in transport, or the answer could not be decoded.
    Failed,
    /// The discovery service answered with this list of bridges.
    Bridges(Vec<HueBridge>),
}

/// What an event stands for.
pub enum DiscoveryEventView {
    Status(u16),
    Failed,
    Bridges(Seq<Seq<char>>),
}

impl View for DiscoveryEvent {
    type V = DiscoveryEventView;

    open spec fn view(&self) -> DiscoveryEventView {
        match *self {
            DiscoveryEvent::Status(status) => DiscoveryEventView::Status(status),
            DiscoveryEvent::Failed => DiscoveryEventView::Failed,
            DiscoveryEvent::Bridges(bridges) => DiscoveryEventView::Bridges(
                bridges@.map_values(|bridge: HueBridge| bridge@),
            ),
        }
    }
}

/// What to do next in the search for the bridge.
#[derive(Debug)]
pub enum DiscoveryAction {
    /// Send this request and report what comes back.
    Ask(BridgeRequest),
    /// The search ends: with the address of the bridge, or without one.
    Finish(Result<String, SensorError>),
    /// Nothing: the search has ended before.
    Closed,
}

/// What an action stands for.
pub enum DiscoveryActionView {
    Ask(RequestView),
    Found(Seq<char>),
    NotFound,
    Closed,
}

/// Whether an action is the one that `view` describes. A search that ends
/// without an address ends with [`SensorError::Discovery`].
pub open spec fn action_is(action: DiscoveryAction, view: DiscoveryActionView) -> bool {
    match view {
        DiscoveryActionView::Ask(request) => action matches DiscoveryAction::Ask(asked) && asked@
            == request,
        DiscoveryActionView::Found(address) => action matches DiscoveryAction::Finish(
            Ok(found),
        ) && found@ == address,
        DiscoveryActionView::NotFound => action matches DiscoveryAction::Finish(
            Err(SensorError::Discovery),
        ),
        DiscoveryActionView::Closed => action is Closed,
    }
}

/// The HTTP status with which a bridge says that it is there.
pub const STATUS_OK: u16 = 200;

/// The transition of the search for the bridge.
///
/// The well-known host name is asked first, and where it answers with the
/// status 200 it is the address. With any other status, or with no answer,
/// the discovery service is asked, and the address is that of the first
/// bridge in its list. Where the service fails or lists no bridge, or
/// answers with a status in place of a list, the search ends without an
/// address. A list of bridges that comes while the host name is asked
/// changes nothing, and the host name is asked again.
pub open spec fn next_discovery_step(state: DiscoveryState, event: DiscoveryEventView) -> (
    DiscoveryState,
    DiscoveryActionView,
) {
    match state {
        DiscoveryState::Finished => (DiscoveryState::Finished, DiscoveryActionView::Closed),
        DiscoveryState::Probing => match event {
            DiscoveryEventView::Status(status) => if status == STATUS_OK {
                (DiscoveryState::Finished, DiscoveryActionView::Found(HUE_DOMAIN@))
            } else {
                (DiscoveryState::Asking, DiscoveryActionView::Ask(discovery()))
            },
            DiscoveryEventView::Failed => (
                DiscoveryState::Asking,
                DiscoveryActionView::Ask(discovery()),
            ),
            DiscoveryEventView::Bridges(_) => (
                DiscoveryState::Probing,
                DiscoveryActionView::Ask(probe()),
            ),
        },
        DiscoveryState::Asking => match event {
            DiscoveryEventView::Bridges(bridges) => if bridges.len() > 0 {
                (DiscoveryState::Finished, DiscoveryActionView::Found(bridges[0]))
            } else {
                (DiscoveryState::Finished, DiscoveryActionView::NotFound)
            },
            _ => (DiscoveryState::Finished, DiscoveryActionView::NotFound),
        },
    }
}

/// Begins the search for the bridge: the well-known host name is asked
/// first.
pub fn start_discovery() -> (started: (DiscoveryState, DiscoveryAction))
    ensures
        started.0 == DiscoveryState::Probing,
        action_is(started.1, DiscoveryActionView::Ask(probe())),
{
    (DiscoveryState::Probing, DiscoveryAction::Ask(probe_request()))
}

/// Takes what came back from the network and says how the search for the
/// bridge goes on, as [`next_discovery_step`] lays down.
pub fn get_bridge(state: DiscoveryState, event: DiscoveryEvent) -> (next: (
    DiscoveryState,
    DiscoveryAction,
))
    ensures
        next.0 == next_discovery_step(state, event@).0,
        action_is(next.1, next_discovery_step(state, event@).1),
{
    match state {
        DiscoveryState::Finished => (DiscoveryState::Finished, DiscoveryAction::Closed),
        DiscoveryState::Probing => match event {
            DiscoveryEvent::Status(status) => if status == STATUS_OK {
                (
                    DiscoveryState::Finished,
                    DiscoveryAction::Finish(Ok(String::from_str(HUE_DOMAIN))),
                )
            } else {
                (DiscoveryState::Asking, DiscoveryAction::Ask(discovery_request()))
            },
            DiscoveryEvent::Failed => (
                DiscoveryState::Asking,
                DiscoveryAction::Ask(discovery_request()),
            ),
            DiscoveryEvent::Bridges(_) => (
                DiscoveryState::Probing,
                DiscoveryAction::Ask(probe_request()),
            ),
        },
        DiscoveryState::Asking => match event {
            DiscoveryEvent::Bridges(bridges) => if bridges.len() > 0 {
                (
                    DiscoveryState::Finished,
                    DiscoveryAction::Finish(Ok(bridges[0].internalipaddress.clone())),
                )
            } else {
                (DiscoveryState::Finished, DiscoveryAction::Finish(Err(SensorError::Discovery)))
            },
            _ => (DiscoveryState::Finished, DiscoveryAction::Finish(Err(SensorError::Discovery))),
        },
    }
}

/// The search falls back on the discovery service and succeeds there:
/// where the host name answers with a status other than 200, or does not
/// answer, the discovery service is asked next, and where that lists at
/// least one bridge the search ends with the address of the first.
pub proof fn law_fallback_finds_first_bridge(first: DiscoveryEventView, bridges: Seq<Seq<char>>)
    requires
        first is Failed || (first is Status && first != DiscoveryEventView::Status(STATUS_OK)),
        bridges.len() > 0,
    ensures
        next_discovery_step(DiscoveryState::Probing, first) == (
            DiscoveryState::Asking,
            DiscoveryActionView::Ask(discovery()),
        ),
        next_discovery_step(DiscoveryState::Asking, DiscoveryEventView::Bridges(bridges)) == (
            DiscoveryState::Finished,
            DiscoveryActionView::Found(bridges[0]),
        ),
{
}

/// The search ends without an address only after both paths were tried:
/// never on an answer of the host name, and only on an answer of the
/// discovery service that names no bridge.
pub proof fn law_not_found_after_both_paths(state: DiscoveryState, event: DiscoveryEventView)
    requires
        next_discovery_step(state, event).1 == DiscoveryActionView::NotFound,
    ensures
        state == DiscoveryState::Asking,
        event matches DiscoveryEventView::Bridges(bridges) ==> bridges.len() == 0,
{
}

} // verus!
