//! What a platform is probed with, and what a caller may choose per run.

use vstd::prelude::*;
use vstd::string::*;
use crate::error::{ErrorView, ReauthfiError};

verus! {

/// An operating system that the engine knows how to probe on.
#[derive(Debug, Clone, Copy)]
pub enum Platform {
    MacOS,
}

/// An address that answers in a known way where the internet is open.
#[derive(Debug, Clone, Copy)]
pub struct DetectionEndpoint {
    pub name: &'static str,
    pub url: &'static str,
    pub expected_status: Option<u16>,
}

/// The mathematical value of a [`DetectionEndpoint`].
pub struct EndpointView {
    pub name: Seq<char>,
    pub url: Seq<char>,
    pub expected_status: Option<u16>,
}

impl View for DetectionEndpoint {
    type V = EndpointView;

    open spec fn view(&self) -> EndpointView {
        EndpointView { name: self.name@, url: self.url@, expected_status: self.expected_status }
    }
}

impl DeepView for DetectionEndpoint {
    type V = EndpointView;

    open spec fn deep_view(&self) -> EndpointView {
        self@
    }
}

/// How one platform is probed. The lists may be empty; a strategy without
/// targets finds no portal.
#[derive(Debug)]
pub struct PlatformConfig {
    /// The endpoints that are probed directly, in order.
    pub detection_endpoints: Vec<DetectionEndpoint>,
    /// The command that shows the default gateway, as an argument vector.
    pub gateway_command: Vec<&'static str>,
    /// The regular expression whose group 1 is the gateway's IPv4 address in
    /// that command's output.
    pub gateway_regex: &'static str,
    /// The paths that are probed on the gateway, in order.
    pub gateway_endpoints: Vec<&'static str>,
    /// Whether the wireless interface can be switched off and on again.
    pub supports_wifi_reset: bool,
}

/// A platform's configuration under the name that detection code uses.
pub type DetectionConfig = PlatformConfig;

/// The mathematical value of a [`PlatformConfig`].
pub struct ConfigView {
    pub detection_endpoints: Seq<EndpointView>,
    pub gateway_command: Seq<Seq<char>>,
    pub gateway_regex: Seq<char>,
    pub gateway_endpoints: Seq<Seq<char>>,
    pub supports_wifi_reset: bool,
}

impl View for PlatformConfig {
    type V = ConfigView;

    open spec fn view(&self) -> ConfigView {
        ConfigView {
            detection_endpoints: self.detection_endpoints.deep_view(),
            gateway_command: self.gateway_command.deep_view(),
            gateway_regex: self.gateway_regex@,
            gateway_endpoints: self.gateway_endpoints.deep_view(),
            supports_wifi_reset: self.supports_wifi_reset,
        }
    }
}

/// The regular expression that finds the gateway in the output of
/// `route -n get default`.
pub const MACOS_GATEWAY_REGEX: &'static str = "gateway:\\s+(\\d+\\.\\d+\\.\\d+\\.\\d+)";

/// The endpoints that are probed directly on macOS.
pub open spec fn macos_endpoints() -> Seq<EndpointView> {
    seq![
        EndpointView {
            name: "Apple"@,
            url: "http://captive.apple.com/hotspot-detect.html"@,
            expected_status: None,
        },
        EndpointView {
            name: "Google"@,
            url: "http://connectivitycheck.gstatic.com/generate_204"@,
            expected_status: Some(204u16),
        },
    ]
}

/// The configuration for macOS.
pub open spec fn macos_config() -> ConfigView {
    ConfigView {
        detection_endpoints: macos_endpoints(),
        gateway_command: seq!["route"@, "-n"@, "get"@, "default"@],
        gateway_regex: MACOS_GATEWAY_REGEX@,
        gateway_endpoints: seq!["/"@],
        supports_wifi_reset: true,
    }
}

impl Platform {
    /// The platform that this engine is built for.
    pub fn detect() -> (platform: Platform)
        ensures
            platform == Platform::MacOS,
    {
        Platform::MacOS
    }

    /// The platform that an operating system's name stands for: `macos` is
    /// the only one known.
    pub fn from_os_name(name: &str) -> (platform: Option<Platform>)
        ensures
            platform == if name@ == "macos"@ {
                Some(Platform::MacOS)
            } else {
                None::<Platform>
            },
    {
        let given = String::from_str(name);
        let known = String::from_str("macos");
        if given == known {
            Some(Platform::MacOS)
        } else {
            None
        }
    }

    /// The endpoints that are probed directly on this platform.
    pub fn detection_endpoints(&self) -> (endpoints: Vec<DetectionEndpoint>)
        ensures
            endpoints.deep_view() == macos_endpoints(),
    {
        let mut endpoints: Vec<DetectionEndpoint> = Vec::new();
        endpoints.push(
            DetectionEndpoint {
                name: "Apple",
                url: "http://captive.apple.com/hotspot-detect.html",
                expected_status: None,
            },
        );
        endpoints.push(
            DetectionEndpoint {
                name: "Google",
                url: "http://connectivitycheck.gstatic.com/generate_204",
                expected_status: Some(204),
            },
        );
        assert(endpoints.deep_view() =~= macos_endpoints());
        endpoints
    }
}

impl PlatformConfig {
    /// The configuration of `platform`.
    pub fn for_platform(platform: &Platform) -> (config: PlatformConfig)
        ensures
            config@ == macos_config(),
    {
        let mut gateway_command: Vec<&'static str> = Vec::new();
        gateway_command.push("route");
        gateway_command.push("-n");
        gateway_command.push("get");
        gateway_command.push("default");
        let mut gateway_endpoints: Vec<&'static str> = Vec::new();
        gateway_endpoints.push("/");
        assert(gateway_command.deep_view() =~= seq!["route"@, "-n"@, "get"@, "default"@]);
        assert(gateway_endpoints.deep_view() =~= seq!["/"@]);
        PlatformConfig {
            detection_endpoints: platform.detection_endpoints(),
            gateway_command,
            gateway_regex: MACOS_GATEWAY_REGEX,
            gateway_endpoints,
            supports_wifi_reset: true,
        }
    }
}

/// The configuration for the operating system called `os_name`; an error
/// where the engine does not know that system.
pub fn detection_config(os_name: &str) -> (config: Result<PlatformConfig, ReauthfiError>)
    ensures
        os_name@ == "macos"@ ==> (config matches Ok(found) && found@ == macos_config()),
        os_name@ != "macos"@ ==> (config matches Err(error) && error@
            == ErrorView::UnsupportedPlatform),
{
    match Platform::from_os_name(os_name) {
        Some(platform) => Ok(PlatformConfig::for_platform(&platform)),
        None => Err(ReauthfiError::UnsupportedPlatform),
    }
}

/// What a caller chooses for one run.
#[derive(Debug, Clone, Copy)]
pub struct Options {
    /// Whether diagnostics are shown in full.
    pub verbose: bool,
    /// Whether a portal that was found is left unopened.
    pub no_open: bool,
    /// Whether the gateway is probed before the direct endpoints.
    pub gateway: bool,
    /// Seconds that one request may take.
    pub timeout: u64,
}

impl Default for Options {
    fn default() -> (options: Options)
        ensures
            !options.verbose,
            !options.no_open,
            !options.gateway,
            options.timeout == 10,
    {
        Options { verbose: false, no_open: false, gateway: false, timeout: 10 }
    }
}

/// One of the two ways to look for a portal.
#[derive(Debug, Clone, Copy, PartialEq, Eq, Structural)]
pub enum StrategyKind {
    /// Probe the default gateway.
    Gateway,
    /// Probe the platform's detection endpoints.
    StandardUrl,
}

/// The strategy that runs at place `place` of a pass: places 0 and 1 hold
/// both strategies, the gateway first where that is chosen; later places
/// hold none.
pub open spec fn strategy_at(gateway_first: bool, place: nat) -> Option<StrategyKind> {
    if place == 0 {
        Some(if gateway_first { StrategyKind::Gateway } else { StrategyKind::StandardUrl })
    } else if place == 1 {
        Some(if gateway_first { StrategyKind::StandardUrl } else { StrategyKind::Gateway })
    } else {
        None
    }
}

/// The strategy that runs at place `place` of a pass.
pub fn strategy_in_order(gateway_first: bool, place: usize) -> (kind: Option<StrategyKind>)
    ensures
        kind == strategy_at(gateway_first, place as nat),
{
    if place == 0 {
        if gateway_first {
            Some(StrategyKind::Gateway)
        } else {
            Some(StrategyKind::StandardUrl)
        }
    } else if place == 1 {
        if gateway_first {
            Some(StrategyKind::StandardUrl)
        } else {
            Some(StrategyKind::Gateway)
        }
    } else {
        None
    }
}

} // verus!
