//! The two strategies: what each one probes.

use vstd::prelude::*;
use vstd::string::*;
use crate::classify::{DetectionTarget, TargetView};
use crate::config::{ConfigView, EndpointView, PlatformConfig};
use crate::detection::{
    canceled_issues, canceled_text, detection_result, run_detection, DetectionResult,
    DetectionResultView, Observation, ObservationView,
};
use crate::error::{ErrorView, ReauthfiError};
use crate::pattern::{capture_group, regex_capture};

verus! {

/// The target that a detection endpoint becomes: its name, address and
/// expected status, with no meta-refresh reading.
pub open spec fn standard_target(endpoint: EndpointView) -> TargetView {
    TargetView {
        name: endpoint.name,
        url: endpoint.url,
        expected_status: endpoint.expected_status,
        allow_meta_refresh: false,
    }
}

/// The targets of the direct strategy: one for each detection endpoint, in
/// order.
pub open spec fn standard_targets(config: ConfigView) -> Seq<TargetView> {
    Seq::new(
        config.detection_endpoints.len(),
        |i: int| standard_target(config.detection_endpoints[i]),
    )
}

/// The target that a path on the gateway becomes: no status is expected, and
/// a meta-refresh directive counts.
pub open spec fn gateway_target(gateway_ip: Seq<char>, path: Seq<char>) -> TargetView {
    TargetView {
        name: "Gateway"@ + path,
        url: "http://"@ + gateway_ip + path,
        expected_status: None,
        allow_meta_refresh: true,
    }
}

/// The targets of the gateway strategy: one for each configured path, in
/// order.
pub open spec fn gateway_targets(config: ConfigView, gateway_ip: Seq<char>) -> Seq<TargetView> {
    Seq::new(
        config.gateway_endpoints.len(),
        |i: int| gateway_target(gateway_ip, config.gateway_endpoints[i]),
    )
}

/// The gateway's address in the output of the gateway command: group 1 of
/// the configured expression.
pub open spec fn gateway_ip_of(config: ConfigView, output: Seq<char>) -> Option<Seq<char>> {
    regex_capture(config.gateway_regex, output, 1)
}

/// The diagnostic of a gateway that could not be resolved.
pub open spec fn gateway_issue_text() -> Seq<char> {
    "gateway_ip"@
}

/// The result of the direct strategy, where `seen[i]` is what its target `i`
/// shows.
pub open spec fn standard_detection(config: ConfigView, seen: Seq<ObservationView>) -> Option<
    DetectionResultView,
> {
    detection_result(standard_targets(config), seen)
}

/// The result of the gateway strategy, where `canceled` is the cancel flag
/// as polled at its start, `output` is what the gateway command printed, if
/// it ended with success, and `seen[i]` is what target `i` shows. A run that
/// is canceled at the start reports that; a gateway that cannot be resolved
/// is the one diagnostic `"gateway_ip"`, and nothing is probed.
pub open spec fn gateway_detection(
    config: ConfigView,
    canceled: bool,
    output: Option<Seq<char>>,
    seen: Seq<ObservationView>,
) -> Option<DetectionResultView> {
    if canceled {
        Some(DetectionResultView::NetworkIssues(seq![canceled_text()]))
    } else if output is Some && gateway_ip_of(config, output->0) is Some {
        detection_result(gateway_targets(config, gateway_ip_of(config, output->0)->0), seen)
    } else {
        Some(DetectionResultView::NetworkIssues(seq![gateway_issue_text()]))
    }
}

/// The one-item diagnostics of a gateway that could not be resolved.
pub fn gateway_issues() -> (result: DetectionResult)
    ensures
        result@ == DetectionResultView::NetworkIssues(seq![gateway_issue_text()]),
{
    let mut issues: Vec<String> = Vec::new();
    let text = String::from_str("gateway_ip");
    issues.push(text);
    assert(issues.deep_view() =~= seq![gateway_issue_text()]);
    DetectionResult::NetworkIssues(issues)
}

/// The strategy that probes the platform's detection endpoints.
#[derive(Debug)]
pub struct StandardUrlDetection;

/// The strategy that probes the default gateway.
#[derive(Debug)]
pub struct GatewayDetection;

impl StandardUrlDetection {
    /// The targets of this strategy under `config`.
    pub fn targets(config: &PlatformConfig) -> (targets: Vec<DetectionTarget>)
        ensures
            targets.deep_view() == standard_targets(config@),
    {
        let mut targets: Vec<DetectionTarget> = Vec::new();
        let mut i: usize = 0;
        while i < config.detection_endpoints.len()
            invariant
                i <= config.detection_endpoints.len(),
                targets.len() == i,
                forall|k: int|
                    0 <= k < i ==> targets[k]@ == standard_target(
                        config.detection_endpoints[k]@,
                    ),
            decreases config.detection_endpoints.len() - i,
        {
            let endpoint = &config.detection_endpoints[i];
            targets.push(
                DetectionTarget {
                    name: String::from_str(endpoint.name),
                    url: String::from_str(endpoint.url),
                    expected_status: endpoint.expected_status,
                    allow_meta_refresh: false,
                },
            );
            i = i + 1;
        }
        assert(targets.deep_view() =~= standard_targets(config@));
        targets
    }
}

impl StandardUrlDetection {
    /// The result of this strategy, replayed from what was recorded of its
    /// targets. `None` where a target is reached of which `seen` says
    /// nothing.
    pub fn detect(config: &PlatformConfig, seen: Vec<Observation>) -> (result: Option<
        DetectionResult,
    >)
        ensures
            result.deep_view() == standard_detection(config@, seen.deep_view()),
    {
        run_detection(Self::targets(config), seen)
    }
}

impl GatewayDetection {
    /// The result of this strategy, replayed from what was recorded: the
    /// cancel flag as polled at its start, what the gateway command gave,
    /// and what each target showed. `None` where a target is reached of
    /// which `seen` says nothing.
    pub fn detect(
        config: &PlatformConfig,
        canceled: bool,
        output: Result<String, ReauthfiError>,
        seen: Vec<Observation>,
    ) -> (result: Option<DetectionResult>)
        ensures
            result.deep_view() == gateway_detection(
                config@,
                canceled,
                match output {
                    Ok(text) => Some(text@),
                    Err(_) => None,
                },
                seen.deep_view(),
            ),
    {
        if canceled {
            return Some(canceled_issues());
        }
        let address = match output {
            Ok(text) => get_gateway_ip(config, text.as_str()),
            Err(error) => Err(error),
        };
        match address {
            Ok(ip) => run_detection(Self::targets(config, ip.as_str()), seen),
            Err(_) => Some(gateway_issues()),
        }
    }

    /// The targets of this strategy under `config`, once the gateway's
    /// address is known.
    pub fn targets(config: &PlatformConfig, gateway_ip: &str) -> (targets: Vec<DetectionTarget>)
        ensures
            targets.deep_view() == gateway_targets(config@, gateway_ip@),
    {
        let mut targets: Vec<DetectionTarget> = Vec::new();
        let mut i: usize = 0;
        while i < config.gateway_endpoints.len()
            invariant
                i <= config.gateway_endpoints.len(),
                targets.len() == i,
                forall|k: int|
                    0 <= k < i ==> targets[k]@ == gateway_target(
                        gateway_ip@,
                        config.gateway_endpoints[k]@,
                    ),
            decreases config.gateway_endpoints.len() - i,
        {
            let path: &str = config.gateway_endpoints[i];
            let mut name = String::from_str("Gateway");
            name.append(path);
            let mut url = String::from_str("http://");
            url.append(gateway_ip);
            url.append(path);
            targets.push(
                DetectionTarget { name, url, expected_status: None, allow_meta_refresh: true },
            );
            i = i + 1;
        }
        assert(targets.deep_view() =~= gateway_targets(config@, gateway_ip@));
        targets
    }
}

/// Turns what the gateway expression captured into the gateway's address; a
/// missing capture is a not-found error.
pub fn gateway_ip_from_capture(capture: Option<String>) -> (address: Result<String, ReauthfiError>)
    ensures
        capture matches Some(found) ==> (address matches Ok(ip) && ip@ == found@),
        capture is None ==> (address matches Err(error) && error@ == ErrorView::NotFound),
{
    match capture {
        Some(found) => Ok(found),
        None => Err(ReauthfiError::NotFound),
    }
}

/// Reads the gateway's address out of the output of the gateway command. A
/// not-found error where the configured expression captures nothing.
pub fn get_gateway_ip(config: &PlatformConfig, output: &str) -> (address: Result<
    String,
    ReauthfiError,
>)
    ensures
        gateway_ip_of(config@, output@) matches Some(found) ==> (address matches Ok(ip) && ip@
            == found),
        gateway_ip_of(config@, output@) is None ==> (address matches Err(error) && error@
            == ErrorView::NotFound),
{
    gateway_ip_from_capture(capture_group(config.gateway_regex, output, 1))
}

} // verus!
