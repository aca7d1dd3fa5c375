use reauthfi::classify::{HttpReply, TransportError};
use reauthfi::config::{DetectionEndpoint, Options, Platform, PlatformConfig};
use reauthfi::engine::{connect_timeout, owned_strings, Action, Engine, Event, Phase};
use reauthfi::error::ReauthfiError;
use reauthfi::orchestrator::{ExecutionStatus, Verdict};

const APPLE: &str = "http://captive.apple.com/hotspot-detect.html";
const GOOGLE: &str = "http://connectivitycheck.gstatic.com/generate_204";
const LISTING: &str = "Hardware Port: Wi-Fi\nDevice: en0\nEthernet Address: aa:bb\n";

fn macos() -> PlatformConfig {
    PlatformConfig::for_platform(&Platform::detect())
}

fn options(gateway: bool, no_open: bool) -> Options {
    Options { verbose: false, no_open, gateway, timeout: 5 }
}

fn reply(status: u16, location: Option<&str>) -> Event {
    Event::Reply(HttpReply { status, location: location.map(|s| s.to_string()) })
}

fn command(words: &[&str]) -> Action {
    Action::RunCommand(words.iter().map(|s| s.to_string()).collect())
}

fn same(left: &Action, right: &Action) -> bool {
    format!("{:?}", left) == format!("{:?}", right)
}

/// Hands the events in, one for each pending action, and checks on the way
/// that the engine asks for the actions expected.
fn play(engine: Engine, script: Vec<(Action, Event)>) -> Engine {
    let mut engine = engine;
    for (expected, event) in script {
        let pending = engine.pending();
        assert!(same(&pending, &expected), "pending {:?}, expected {:?}", pending, expected);
        assert!(!engine.is_over());
        engine = engine.handle(event, false);
    }
    engine
}

fn build() -> (Action, Event) {
    (Action::BuildClient { request_timeout: 5, connect_timeout: 2 }, Event::ClientReady)
}

fn probe(url: &str) -> Action {
    Action::Probe { url: url.to_string(), timeout: 5 }
}

fn route() -> Action {
    command(&["route", "-n", "get", "default"])
}

fn ended(engine: Engine) -> Result<Verdict, ReauthfiError> {
    assert!(engine.is_over());
    assert!(same(&engine.pending(), &Action::Finish));
    engine.into_result().unwrap()
}

fn failing_first_pass() -> Vec<(Action, Event)> {
    vec![
        build(),
        (probe(APPLE), Event::TransportFailed(TransportError::Connect)),
        (probe(GOOGLE), Event::TransportFailed(TransportError::Timeout)),
        (route(), Event::CommandFailed("exit code 1".to_string())),
    ]
}

fn reset_cycle() -> Vec<(Action, Event)> {
    vec![
        (
            command(&["networksetup", "-listallhardwareports"]),
            Event::CommandOutput(LISTING.to_string()),
        ),
        (
            command(&["networksetup", "-setairportpower", "en0", "off"]),
            Event::CommandOutput(String::new()),
        ),
        (Action::Wait(2), Event::Elapsed),
        (
            command(&["networksetup", "-setairportpower", "en0", "on"]),
            Event::CommandOutput(String::new()),
        ),
        (Action::Wait(10), Event::Elapsed),
    ]
}

#[test]
fn portal_from_first_strategy_stops_the_run() {
    let engine = Engine::new(macos(), options(false, false));
    let engine = play(
        engine,
        vec![
            build(),
            (probe(APPLE), reply(302, Some("http://portal.example/login"))),
            (Action::OpenPortal("http://portal.example/login".to_string()), Event::PortalOpened),
        ],
    );
    let verdict = ended(engine).unwrap();
    assert_eq!(verdict.status, ExecutionStatus::Completed);
    assert_eq!(verdict.portal_url, Some("http://portal.example/login".to_string()));
    assert!(verdict.errors.is_empty());
}

#[test]
fn portal_from_second_strategy_completes_though_the_first_failed() {
    let engine = Engine::new(macos(), options(true, false));
    let engine = play(
        engine,
        vec![
            build(),
            (route(), Event::CommandFailed("exit code 1".to_string())),
            (probe(APPLE), Event::TransportFailed(TransportError::Connect)),
            (probe(GOOGLE), reply(307, Some("https://hotel.example/wifi"))),
            (Action::OpenPortal("https://hotel.example/wifi".to_string()), Event::PortalOpened),
        ],
    );
    let verdict = ended(engine).unwrap();
    assert_eq!(verdict.status, ExecutionStatus::Completed);
    assert_eq!(verdict.portal_url, Some("https://hotel.example/wifi".to_string()));
    assert!(verdict.errors.is_empty());
}

#[test]
fn portal_is_left_unopened_where_asked() {
    let engine = Engine::new(macos(), options(false, true));
    let engine = play(engine, vec![build(), (probe(APPLE), reply(302, Some("http://portal/")))]);
    let verdict = ended(engine).unwrap();
    assert_eq!(verdict.status, ExecutionStatus::Completed);
    assert_eq!(verdict.portal_url, Some("http://portal/".to_string()));
}

#[test]
fn portal_that_cannot_be_opened_is_an_error() {
    let engine = Engine::new(macos(), options(false, false));
    let engine = play(
        engine,
        vec![
            build(),
            (probe(APPLE), reply(302, Some("http://portal/"))),
            (
                Action::OpenPortal("http://portal/".to_string()),
                Event::PortalOpenFailed(ReauthfiError::CommandFailed("exit code 1".to_string())),
            ),
        ],
    );
    let error = ended(engine).unwrap_err();
    assert!(matches!(error, ReauthfiError::CommandFailed(text) if text == "exit code 1"));
}

#[test]
fn client_that_cannot_be_built_is_a_setup_error() {
    let engine = Engine::new(macos(), options(false, false));
    let engine = play(
        engine,
        vec![(
            Action::BuildClient { request_timeout: 5, connect_timeout: 2 },
            Event::ClientFailed("no resolver".to_string()),
        )],
    );
    let error = ended(engine).unwrap_err();
    assert!(matches!(&error, ReauthfiError::Setup(text)
        if text == "failed to build http client: no resolver"));
    assert_eq!(error.message(), "Setup error: failed to build http client: no resolver");
}

#[test]
fn open_network_is_completed_without_portal() {
    let engine = Engine::new(macos(), options(false, false));
    let engine = play(
        engine,
        vec![
            build(),
            (probe(APPLE), reply(200, None)),
            (Action::ReadBody, Event::BodyText("<HTML><BODY>Success</BODY></HTML>".to_string())),
            (probe(GOOGLE), reply(204, None)),
            (route(), Event::CommandOutput("   gateway: 192.168.1.1\n".to_string())),
            (probe("http://192.168.1.1/"), reply(200, None)),
            (Action::ReadBody, Event::BodyText("<html>router</html>".to_string())),
        ],
    );
    let verdict = ended(engine).unwrap();
    assert_eq!(verdict.status, ExecutionStatus::Completed);
    assert_eq!(verdict.portal_url, None);
    assert!(verdict.errors.is_empty());
}

#[test]
fn gateway_page_with_meta_refresh_is_a_portal() {
    let engine = Engine::new(macos(), options(true, true));
    let page = r#"<html><meta http-equiv="refresh" content="0;url=http://portal"></html>"#;
    let engine = play(
        engine,
        vec![
            build(),
            (route(), Event::CommandOutput("gateway: 10.0.0.1\n".to_string())),
            (probe("http://10.0.0.1/"), reply(200, None)),
            (Action::ReadBody, Event::BodyText(page.to_string())),
        ],
    );
    let verdict = ended(engine).unwrap();
    assert_eq!(verdict.status, ExecutionStatus::Completed);
    assert_eq!(verdict.portal_url, Some("http://portal".to_string()));
}

#[test]
fn failed_pass_resets_wifi_once_and_the_retry_decides() {
    let engine = Engine::new(macos(), options(false, false));
    let engine = play(engine, failing_first_pass());
    assert!(matches!(engine.phase, Phase::FindingWifi));
    assert_eq!(
        engine.first_errors,
        vec!["Apple: connect error", "Google: timeout (5s)", "gateway_ip"]
    );
    let engine = play(engine, reset_cycle());
    assert!(engine.retried);
    let engine = play(
        engine,
        vec![
            build(),
            (probe(APPLE), reply(200, None)),
            (Action::ReadBody, Event::BodyText("Success".to_string())),
            (probe(GOOGLE), reply(204, None)),
            (route(), Event::CommandFailed("exit code 1".to_string())),
        ],
    );
    let verdict = ended(engine).unwrap();
    assert_eq!(verdict.status, ExecutionStatus::Completed);
    assert_eq!(verdict.portal_url, None);
    assert!(verdict.errors.is_empty());
}

#[test]
fn failed_retry_ends_the_run_with_its_own_diagnostics() {
    let engine = Engine::new(macos(), options(false, false));
    let engine = play(engine, failing_first_pass());
    let engine = play(engine, reset_cycle());
    let engine = play(
        engine,
        vec![
            build(),
            (probe(APPLE), reply(500, None)),
            (probe(GOOGLE), reply(200, None)),
            (route(), Event::CommandOutput("no route".to_string())),
        ],
    );
    let verdict = ended(engine).unwrap();
    assert_eq!(verdict.status, ExecutionStatus::NetworkNotReady);
    assert_eq!(verdict.portal_url, None);
    assert_eq!(verdict.errors, vec!["Apple: status 500", "Google: status 200", "gateway_ip"]);
}

#[test]
fn retry_that_finds_a_portal_completes() {
    let engine = Engine::new(macos(), options(true, false));
    let engine = play(
        engine,
        vec![
            build(),
            (route(), Event::CommandOutput("gateway: 10.0.0.1".to_string())),
            (probe("http://10.0.0.1/"), Event::TransportFailed(TransportError::Connect)),
            (probe(APPLE), Event::TransportFailed(TransportError::Connect)),
            (probe(GOOGLE), Event::TransportFailed(TransportError::Connect)),
        ],
    );
    assert_eq!(
        engine.first_errors,
        vec!["Gateway/: connect error", "Apple: connect error", "Google: connect error"]
    );
    let engine = play(engine, reset_cycle());
    let engine = play(
        engine,
        vec![
            build(),
            (route(), Event::CommandOutput("gateway: 10.0.0.1".to_string())),
            (probe("http://10.0.0.1/"), reply(302, Some("http://10.0.0.1/login"))),
            (Action::OpenPortal("http://10.0.0.1/login".to_string()), Event::PortalOpened),
        ],
    );
    let verdict = ended(engine).unwrap();
    assert_eq!(verdict.status, ExecutionStatus::Completed);
    assert_eq!(verdict.portal_url, Some("http://10.0.0.1/login".to_string()));
}

#[test]
fn missing_wifi_device_reports_the_first_diagnostics() {
    let engine = Engine::new(macos(), options(false, false));
    let engine = play(engine, failing_first_pass());
    let engine = play(
        engine,
        vec![(
            command(&["networksetup", "-listallhardwareports"]),
            Event::CommandOutput("Hardware Port: Ethernet\nDevice: en7\n".to_string()),
        )],
    );
    let verdict = ended(engine).unwrap();
    assert_eq!(verdict.status, ExecutionStatus::NetworkNotReady);
    assert_eq!(verdict.errors, vec!["Apple: connect error", "Google: timeout (5s)", "gateway_ip"]);
}

#[test]
fn failing_reset_command_reports_the_first_diagnostics() {
    for failing_step in [0usize, 1, 3] {
        let engine = Engine::new(macos(), options(false, false));
        let mut engine = play(engine, failing_first_pass());
        for (step, (expected, event)) in reset_cycle().into_iter().enumerate() {
            assert!(same(&engine.pending(), &expected));
            if step == failing_step {
                engine = engine.handle(Event::CommandFailed("exit code 1".to_string()), false);
                break;
            }
            engine = engine.handle(event, false);
        }
        let verdict = ended(engine).unwrap();
        assert_eq!(verdict.status, ExecutionStatus::NetworkNotReady);
        assert_eq!(
            verdict.errors,
            vec!["Apple: connect error", "Google: timeout (5s)", "gateway_ip"]
        );
    }
}

#[test]
fn platform_without_reset_ends_after_one_pass() {
    let mut config = macos();
    config.supports_wifi_reset = false;
    let engine = Engine::new(config, options(false, false));
    let engine = play(engine, failing_first_pass());
    let verdict = ended(engine).unwrap();
    assert_eq!(verdict.status, ExecutionStatus::NetworkNotReady);
    assert_eq!(verdict.errors, vec!["Apple: connect error", "Google: timeout (5s)", "gateway_ip"]);
}

#[test]
fn empty_configuration_is_completed_without_a_probe() {
    let config = PlatformConfig {
        detection_endpoints: Vec::new(),
        gateway_command: vec!["route"],
        gateway_regex: r"gateway:\s+(\S+)",
        gateway_endpoints: Vec::new(),
        supports_wifi_reset: true,
    };
    let engine = Engine::new(config, options(false, false));
    let engine = play(
        engine,
        vec![build(), (command(&["route"]), Event::CommandOutput("gateway: 10.0.0.1".to_string()))],
    );
    let verdict = ended(engine).unwrap();
    assert_eq!(verdict.status, ExecutionStatus::Completed);
    assert_eq!(verdict.portal_url, None);
}

#[test]
fn cancellation_is_seen_before_the_next_target() {
    let mut config = macos();
    config.supports_wifi_reset = false;
    let engine = Engine::new(config, options(false, false));
    let engine = play(engine, vec![build()]);
    assert!(same(&engine.pending(), &probe(APPLE)));
    // The flag is found set when the first reply is handed in: the reply still
    // counts, the second target is not probed, and the gateway strategy ends
    // before its command runs.
    let engine = engine.handle(Event::TransportFailed(TransportError::Connect), true);
    let verdict = ended(engine).unwrap();
    assert_eq!(verdict.status, ExecutionStatus::NetworkNotReady);
    assert_eq!(verdict.errors, vec!["canceled", "canceled"]);
}

#[test]
fn cancellation_at_the_start_of_the_gateway_strategy() {
    let mut config = macos();
    config.supports_wifi_reset = false;
    let engine = Engine::new(config, options(true, false));
    let engine = engine.handle(Event::ClientReady, true);
    let verdict = ended(engine).unwrap();
    assert_eq!(verdict.status, ExecutionStatus::NetworkNotReady);
    assert_eq!(verdict.errors, vec!["canceled", "canceled"]);
}

#[test]
fn portal_outweighs_a_cancellation_seen_with_it() {
    let engine = Engine::new(macos(), options(false, true));
    let engine = play(engine, vec![build()]);
    let engine = engine.handle(reply(302, Some("http://portal/")), true);
    let verdict = ended(engine).unwrap();
    assert_eq!(verdict.portal_url, Some("http://portal/".to_string()));
}

#[test]
fn stray_events_change_nothing() {
    let engine = Engine::new(macos(), options(false, false));
    let engine = engine.handle(Event::Elapsed, false);
    let engine = engine.handle(reply(302, Some("http://portal/")), false);
    let engine = engine.handle(Event::CommandOutput("gateway: 1.2.3.4".to_string()), true);
    assert!(matches!(engine.phase, Phase::BuildingClient));
    let engine = play(engine, vec![build()]);
    let engine = engine.handle(Event::BodyText("Success".to_string()), false);
    let engine = engine.handle(Event::ClientReady, false);
    let engine = engine.handle(Event::PortalOpened, false);
    assert!(same(&engine.pending(), &probe(APPLE)));
    assert!(engine.into_result().is_none());
}

#[test]
fn finished_run_stays_finished() {
    let engine = Engine::new(macos(), options(false, true));
    let engine = play(engine, vec![build(), (probe(APPLE), reply(302, Some("http://portal/")))]);
    let engine = engine.handle(Event::ClientReady, false);
    let engine = engine.handle(reply(200, None), false);
    let verdict = ended(engine).unwrap();
    assert_eq!(verdict.portal_url, Some("http://portal/".to_string()));
}

#[test]
fn unreadable_body_is_collected_as_an_issue() {
    let mut config = macos();
    config.supports_wifi_reset = false;
    config.detection_endpoints =
        vec![DetectionEndpoint { name: "Only", url: "http://only.example/", expected_status: None }];
    config.gateway_endpoints = Vec::new();
    let engine = Engine::new(config, options(false, false));
    let engine = play(
        engine,
        vec![
            build(),
            (probe("http://only.example/"), reply(200, None)),
            (Action::ReadBody, Event::BodyUnreadable),
            (route(), Event::CommandFailed("exit code 1".to_string())),
        ],
    );
    let verdict = ended(engine).unwrap();
    assert_eq!(verdict.status, ExecutionStatus::NetworkNotReady);
    assert_eq!(verdict.errors, vec!["Only: failed to read body", "gateway_ip"]);
}

#[test]
fn connect_timeout_is_capped() {
    assert_eq!(connect_timeout(0), 0);
    assert_eq!(connect_timeout(1), 1);
    assert_eq!(connect_timeout(2), 2);
    assert_eq!(connect_timeout(3), 2);
    assert_eq!(connect_timeout(u64::MAX), 2);
    let engine = Engine::new(macos(), Options { verbose: true, no_open: false, gateway: false, timeout: 1 });
    assert!(same(
        &engine.pending(),
        &Action::BuildClient { request_timeout: 1, connect_timeout: 1 }
    ));
    assert_eq!(owned_strings(&vec!["a", "", "c"]), vec!["a", "", "c"]);
}
