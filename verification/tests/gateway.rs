use reauthfi::classify::{DetectionTarget, Outcome};
use reauthfi::detection::{DetectionResult, Observation};
use reauthfi::config::{
    detection_config, strategy_in_order, DetectionConfig, DetectionEndpoint, Options, Platform,
    PlatformConfig, StrategyKind, MACOS_GATEWAY_REGEX,
};
use reauthfi::error::ReauthfiError;
use reauthfi::strategies::{
    gateway_ip_from_capture, gateway_issues, get_gateway_ip, GatewayDetection,
    StandardUrlDetection,
};
use reauthfi::wifi::WifiController;

fn dummy_config() -> DetectionConfig {
    DetectionConfig {
        detection_endpoints: Vec::new(),
        gateway_command: vec!["route"],
        gateway_regex: MACOS_GATEWAY_REGEX,
        gateway_endpoints: Vec::new(),
        supports_wifi_reset: true,
    }
}

fn same_target(target: &DetectionTarget, name: &str, url: &str, expected: Option<u16>, meta: bool) {
    assert_eq!(target.name, name);
    assert_eq!(target.url, url);
    assert_eq!(target.expected_status, expected);
    assert_eq!(target.allow_meta_refresh, meta);
}

#[test]
fn gateway_ip_is_parsed_from_route_output() {
    let cfg = dummy_config();
    let output = "route to default\n    gateway: 10.0.0.1\n".to_string();

    let ip = get_gateway_ip(&cfg, &output).unwrap();
    assert_eq!(ip, "10.0.0.1");
}

#[test]
fn gateway_ip_missing_returns_not_found() {
    let cfg = dummy_config();
    let output = "no gateway present".to_string();

    let err = get_gateway_ip(&cfg, &output).unwrap_err();
    assert!(matches!(err, ReauthfiError::NotFound));
}

#[test]
fn gateway_ip_is_the_first_match_of_the_configured_expression() {
    let mut cfg = dummy_config();
    let output = "gateway: 192.168.1.254\ngateway: 10.0.0.1\n";
    assert_eq!(get_gateway_ip(&cfg, output).unwrap(), "192.168.1.254");
    cfg.gateway_regex = r"via (\S+) dev";
    assert_eq!(get_gateway_ip(&cfg, "default via 172.16.0.1 dev eth0").unwrap(), "172.16.0.1");
    assert!(matches!(get_gateway_ip(&cfg, output), Err(ReauthfiError::NotFound)));
}

#[test]
fn gateway_expression_that_does_not_compile_finds_nothing() {
    let mut cfg = dummy_config();
    cfg.gateway_regex = "gateway: (";
    let err = get_gateway_ip(&cfg, "gateway: 10.0.0.1").unwrap_err();
    assert!(matches!(err, ReauthfiError::NotFound));
}

#[test]
fn gateway_expression_without_group_finds_nothing() {
    let mut cfg = dummy_config();
    cfg.gateway_regex = r"gateway:\s+\d+";
    let err = get_gateway_ip(&cfg, "gateway: 10.0.0.1").unwrap_err();
    assert!(matches!(err, ReauthfiError::NotFound));
}

#[test]
fn missing_capture_is_not_found() {
    assert!(matches!(gateway_ip_from_capture(None), Err(ReauthfiError::NotFound)));
    assert_eq!(gateway_ip_from_capture(Some("10.1.2.3".to_string())).unwrap(), "10.1.2.3");
}

#[test]
fn macos_configuration_is_as_documented() {
    let platform = Platform::detect();
    assert!(matches!(platform, Platform::MacOS));
    let endpoints = platform.detection_endpoints();
    assert_eq!(endpoints.len(), 2);
    assert_eq!(endpoints[0].name, "Apple");
    assert_eq!(endpoints[0].url, "http://captive.apple.com/hotspot-detect.html");
    assert_eq!(endpoints[0].expected_status, None);
    assert_eq!(endpoints[1].name, "Google");
    assert_eq!(endpoints[1].url, "http://connectivitycheck.gstatic.com/generate_204");
    assert_eq!(endpoints[1].expected_status, Some(204));
    let config = PlatformConfig::for_platform(&platform);
    assert_eq!(config.detection_endpoints.len(), 2);
    assert_eq!(config.gateway_command, vec!["route", "-n", "get", "default"]);
    assert_eq!(config.gateway_regex, r"gateway:\s+(\d+\.\d+\.\d+\.\d+)");
    assert_eq!(config.gateway_endpoints, vec!["/"]);
    assert!(config.supports_wifi_reset);
}

#[test]
fn only_macos_is_a_known_platform() {
    assert!(matches!(Platform::from_os_name("macos"), Some(Platform::MacOS)));
    assert!(Platform::from_os_name("linux").is_none());
    assert!(Platform::from_os_name("MacOS").is_none());
    assert!(Platform::from_os_name("").is_none());
    let config = detection_config("macos").unwrap();
    assert_eq!(config.gateway_endpoints, vec!["/"]);
    assert!(matches!(detection_config("windows"), Err(ReauthfiError::UnsupportedPlatform)));
}

#[test]
fn default_options_wait_ten_seconds() {
    let options = Options::default();
    assert!(!options.verbose);
    assert!(!options.no_open);
    assert!(!options.gateway);
    assert_eq!(options.timeout, 10);
}

#[test]
fn strategies_run_in_the_chosen_order() {
    assert_eq!(strategy_in_order(false, 0), Some(StrategyKind::StandardUrl));
    assert_eq!(strategy_in_order(false, 1), Some(StrategyKind::Gateway));
    assert_eq!(strategy_in_order(true, 0), Some(StrategyKind::Gateway));
    assert_eq!(strategy_in_order(true, 1), Some(StrategyKind::StandardUrl));
    assert_eq!(strategy_in_order(false, 2), None);
    assert_eq!(strategy_in_order(true, 7), None);
}

#[test]
fn standard_targets_mirror_the_endpoints() {
    let config = PlatformConfig::for_platform(&Platform::MacOS);
    let targets = StandardUrlDetection::targets(&config);
    assert_eq!(targets.len(), 2);
    same_target(&targets[0], "Apple", "http://captive.apple.com/hotspot-detect.html", None, false);
    same_target(
        &targets[1],
        "Google",
        "http://connectivitycheck.gstatic.com/generate_204",
        Some(204),
        false,
    );
    assert!(StandardUrlDetection::targets(&dummy_config()).is_empty());
}

#[test]
fn gateway_targets_are_built_from_address_and_paths() {
    let mut config = dummy_config();
    config.gateway_endpoints = vec!["/", "/login"];
    let targets = GatewayDetection::targets(&config, "10.0.0.1");
    assert_eq!(targets.len(), 2);
    same_target(&targets[0], "Gateway/", "http://10.0.0.1/", None, true);
    same_target(&targets[1], "Gateway/login", "http://10.0.0.1/login", None, true);
    assert!(GatewayDetection::targets(&dummy_config(), "10.0.0.1").is_empty());
}

#[test]
fn custom_endpoints_become_targets() {
    let mut config = dummy_config();
    config.detection_endpoints =
        vec![DetectionEndpoint { name: "Probe", url: "http://probe.example/", expected_status: Some(200) }];
    let targets = StandardUrlDetection::targets(&config);
    assert_eq!(targets.len(), 1);
    same_target(&targets[0], "Probe", "http://probe.example/", Some(200), false);
}

#[test]
fn wifi_device_is_read_from_the_port_listing() {
    let listing = "Hardware Port: Ethernet\nDevice: en0\nEthernet Address: aa\n\n\
                   Hardware Port: Wi-Fi\nDevice: en1\nEthernet Address: bb\n";
    assert_eq!(WifiController::wifi_device(listing).unwrap(), "en1");
    let airport = "Hardware Port: AirPort\nDevice: en2\n";
    assert_eq!(WifiController::wifi_device(airport).unwrap(), "en2");
    let none = "Hardware Port: Ethernet\nDevice: en0\n";
    assert!(matches!(WifiController::wifi_device(none), Err(ReauthfiError::NotFound)));
    assert!(matches!(WifiController::wifi_device(""), Err(ReauthfiError::NotFound)));
    assert!(matches!(WifiController::device_from_capture(None), Err(ReauthfiError::NotFound)));
    assert_eq!(WifiController::device_from_capture(Some("en9".to_string())).unwrap(), "en9");
}

#[test]
fn wifi_commands_are_spelt_out() {
    assert_eq!(WifiController::listing_command(), vec!["networksetup", "-listallhardwareports"]);
    assert_eq!(
        WifiController::power_command("en1", false),
        vec!["networksetup", "-setairportpower", "en1", "off"]
    );
    assert_eq!(
        WifiController::power_command("en1", true),
        vec!["networksetup", "-setairportpower", "en1", "on"]
    );
}

fn seen(outcome: Outcome) -> Observation {
    Observation { canceled: false, outcome }
}

fn issues_of(result: Option<DetectionResult>) -> Vec<String> {
    match result {
        Some(DetectionResult::NetworkIssues(errors)) => errors,
        other => panic!("unexpected result {:?}", other),
    }
}

#[test]
fn standard_strategy_without_endpoints_finds_no_portal() {
    let result = StandardUrlDetection::detect(&dummy_config(), Vec::new());
    assert!(matches!(result, Some(DetectionResult::NoPortalDetected)));
}

#[test]
fn standard_strategy_walks_its_endpoints() {
    let config = PlatformConfig::for_platform(&Platform::MacOS);
    let result = StandardUrlDetection::detect(
        &config,
        vec![seen(Outcome::Issue("Apple: connect error".to_string())), seen(Outcome::Mismatch(500))],
    );
    assert_eq!(issues_of(result), vec!["Apple: connect error", "Google: status 500"]);
    let result = StandardUrlDetection::detect(
        &config,
        vec![seen(Outcome::Mismatch(500)), seen(Outcome::ExpectedOk)],
    );
    assert!(matches!(result, Some(DetectionResult::NoPortalDetected)));
    let result =
        StandardUrlDetection::detect(&config, vec![seen(Outcome::Portal("http://p".to_string()))]);
    assert!(matches!(result, Some(DetectionResult::PortalFound(url)) if url == "http://p"));
    assert!(StandardUrlDetection::detect(&config, vec![seen(Outcome::ExpectedOk)]).is_none());
}

#[test]
fn gateway_strategy_stops_where_the_gateway_is_unknown() {
    let config = PlatformConfig::for_platform(&Platform::MacOS);
    let portal = || vec![seen(Outcome::Portal("http://p".to_string()))];
    let result = GatewayDetection::detect(
        &config,
        false,
        Err(ReauthfiError::Io("exit code 1".to_string())),
        portal(),
    );
    assert_eq!(issues_of(result), vec!["gateway_ip"]);
    let result = GatewayDetection::detect(&config, false, Ok("no route".to_string()), portal());
    assert_eq!(issues_of(result), vec!["gateway_ip"]);
    assert_eq!(issues_of(Some(gateway_issues())), vec!["gateway_ip"]);
}

#[test]
fn gateway_strategy_is_canceled_before_its_command() {
    let config = PlatformConfig::for_platform(&Platform::MacOS);
    let result = GatewayDetection::detect(
        &config,
        true,
        Ok("gateway: 10.0.0.1".to_string()),
        vec![seen(Outcome::Portal("http://p".to_string()))],
    );
    assert_eq!(issues_of(result), vec!["canceled"]);
}

#[test]
fn gateway_strategy_walks_the_gateway_paths() {
    let mut config = dummy_config();
    config.gateway_endpoints = vec!["/", "/login"];
    let output = || Ok("gateway: 10.0.0.1".to_string());
    let result = GatewayDetection::detect(
        &config,
        false,
        output(),
        vec![seen(Outcome::Mismatch(200)), seen(Outcome::Portal("http://10.0.0.1/x".to_string()))],
    );
    assert!(matches!(result, Some(DetectionResult::PortalFound(url)) if url == "http://10.0.0.1/x"));
    let result = GatewayDetection::detect(
        &config,
        false,
        output(),
        vec![seen(Outcome::Mismatch(200)), seen(Outcome::Mismatch(404))],
    );
    assert_eq!(issues_of(result), vec!["Gateway/: status 200", "Gateway/login: status 404"]);
    let result = GatewayDetection::detect(&dummy_config(), false, output(), Vec::new());
    assert!(matches!(result, Some(DetectionResult::NoPortalDetected)));
    assert!(GatewayDetection::detect(&config, false, output(), Vec::new()).is_none());
}
