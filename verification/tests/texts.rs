use reauthfi::cancel::CancelFlag;
use reauthfi::engine::Event;
use reauthfi::error::ReauthfiError;
use reauthfi::host::{exit_status_detail, PortalOpenerService, SystemCommandRunner};
use reauthfi::orchestrator::ExecutionStatus;
use reauthfi::progress::{progress_bar, progress_slots};
use reauthfi::report::{finish_network_not_ready, network_not_ready_lines};
use reauthfi::text::{
    chars_of, contains_ignoring_ascii_case, decimal_string, is_whitespace, join,
    signed_decimal_string, starts_with, to_ascii_lower, trim,
};

#[test]
fn numbers_are_written_in_decimal() {
    assert_eq!(decimal_string(0), "0");
    assert_eq!(decimal_string(7), "7");
    assert_eq!(decimal_string(10), "10");
    assert_eq!(decimal_string(204), "204");
    assert_eq!(decimal_string(1234567890), "1234567890");
    assert_eq!(decimal_string(u64::MAX), "18446744073709551615");
    assert_eq!(signed_decimal_string(0), "0");
    assert_eq!(signed_decimal_string(1), "1");
    assert_eq!(signed_decimal_string(-1), "-1");
    assert_eq!(signed_decimal_string(i32::MAX), "2147483647");
    assert_eq!(signed_decimal_string(i32::MIN), "-2147483648");
}

#[test]
fn strings_are_joined_with_a_separator() {
    let parts = |list: &[&str]| list.iter().map(|s| s.to_string()).collect::<Vec<String>>();
    assert_eq!(join(&parts(&[]), ", "), "");
    assert_eq!(join(&parts(&["a"]), ", "), "a");
    assert_eq!(join(&parts(&["a", "b", "c"]), ", "), "a, b, c");
    assert_eq!(join(&parts(&["", ""]), "-"), "-");
}

#[test]
fn prefixes_are_compared_by_character() {
    assert!(starts_with("http://x", "http"));
    assert!(starts_with("http", "http"));
    assert!(starts_with("anything", ""));
    assert!(!starts_with("htt", "http"));
    assert!(!starts_with("xhttp", "http"));
    assert!(!starts_with("Http://", "http"));
    assert!(starts_with("\u{e9}t\u{e9}", "\u{e9}t"));
}

#[test]
fn search_lowers_ascii_capitals_of_the_haystack_only() {
    assert!(contains_ignoring_ascii_case("It was a SUCCESS.", "success"));
    assert!(contains_ignoring_ascii_case("success", "success"));
    assert!(contains_ignoring_ascii_case("abc", ""));
    assert!(contains_ignoring_ascii_case("", ""));
    assert!(!contains_ignoring_ascii_case("", "a"));
    assert!(!contains_ignoring_ascii_case("succes", "success"));
    assert!(!contains_ignoring_ascii_case("success", "SUCCESS"));
    assert!(!contains_ignoring_ascii_case("\u{c9}T\u{c9}", "\u{e9}t\u{e9}"));
    assert!(contains_ignoring_ascii_case("\u{e9}T\u{e9}", "\u{e9}t\u{e9}"));
    assert_eq!(to_ascii_lower('A'), 'a');
    assert_eq!(to_ascii_lower('Z'), 'z');
    assert_eq!(to_ascii_lower('a'), 'a');
    assert_eq!(to_ascii_lower('@'), '@');
    assert_eq!(to_ascii_lower('['), '[');
    assert_eq!(to_ascii_lower('\u{c9}'), '\u{c9}');
    assert_eq!(chars_of("a\u{e9}z"), vec!['a', '\u{e9}', 'z']);
}

#[test]
fn trimming_agrees_with_the_standard_library() {
    for text in [
        "",
        " ",
        "  a  ",
        "\t\n x y \r\n",
        "abc",
        "\u{a0}\u{3000}in\u{2003}side\u{2028}\u{85}",
        "\u{200b}kept\u{200b}",
        "\u{1680} \u{205f}",
    ] {
        assert_eq!(trim(text), text.trim());
    }
    for code in 0u32..0x3100 {
        if let Some(c) = char::from_u32(code) {
            assert_eq!(is_whitespace(c), c.is_whitespace(), "U+{:04X}", code);
        }
    }
}

#[test]
fn exit_status_is_put_in_words() {
    assert_eq!(exit_status_detail(Some(1)), "exit code 1");
    assert_eq!(exit_status_detail(Some(-9)), "exit code -9");
    assert_eq!(exit_status_detail(None), "terminated by signal");
}

#[test]
fn command_result_carries_exit_code_and_trimmed_stderr() {
    let ok = SystemCommandRunner::interpret(true, Some(0), "out\n".to_string(), "warning");
    assert_eq!(ok.unwrap(), "out\n");
    let failed = SystemCommandRunner::interpret(false, Some(64), "out".to_string(), "  bad flag\n");
    assert!(matches!(failed, Err(ReauthfiError::Io(text)) if text == "exit code 64 (bad flag)"));
    let silent = SystemCommandRunner::interpret(false, Some(1), String::new(), " \n");
    assert!(matches!(silent, Err(ReauthfiError::Io(text)) if text == "exit code 1"));
    let killed = SystemCommandRunner::interpret(false, None, String::new(), "");
    assert!(matches!(killed, Err(ReauthfiError::Io(text)) if text == "terminated by signal"));
    assert!(matches!(
        SystemCommandRunner::event(Ok("text".to_string())),
        Event::CommandOutput(text) if text == "text"
    ));
    assert!(matches!(
        SystemCommandRunner::event(Err(ReauthfiError::Io("exit code 2".to_string()))),
        Event::CommandFailed(text) if text == "IO error: exit code 2"
    ));
}

#[test]
fn opener_result_says_how_the_command_ended() {
    assert_eq!(PortalOpenerService::command("http://portal/"), vec!["open", "http://portal/"]);
    assert!(PortalOpenerService::outcome(true, Some(0)).is_ok());
    assert!(matches!(
        PortalOpenerService::outcome(false, Some(1)),
        Err(ReauthfiError::CommandFailed(text)) if text == "exit code 1"
    ));
    assert!(matches!(
        PortalOpenerService::outcome(false, None),
        Err(ReauthfiError::CommandFailed(text)) if text == "terminated by signal"
    ));
    assert!(matches!(PortalOpenerService::event(Ok(())), Event::PortalOpened));
    assert!(matches!(
        PortalOpenerService::event(Err(ReauthfiError::NotFound)),
        Event::PortalOpenFailed(ReauthfiError::NotFound)
    ));
}

#[test]
fn errors_describe_themselves() {
    assert_eq!(ReauthfiError::Io("denied".to_string()).message(), "IO error: denied");
    assert_eq!(ReauthfiError::NotFound.message(), "Captive portal not found");
    assert_eq!(
        ReauthfiError::CommandFailed("exit code 1".to_string()).message(),
        "Command failed: exit code 1"
    );
    assert_eq!(ReauthfiError::UnsupportedPlatform.message(), "Unsupported platform");
    assert_eq!(ReauthfiError::Setup("no tls".to_string()).message(), "Setup error: no tls");
}

#[test]
fn not_ready_report_joins_the_diagnostics() {
    let errors = vec!["Apple: connect error".to_string(), "gateway_ip".to_string()];
    let (status, detail) = finish_network_not_ready(&errors);
    assert_eq!(status, ExecutionStatus::NetworkNotReady);
    assert_eq!(detail, Some("Apple: connect error, gateway_ip".to_string()));
    let (status, detail) = finish_network_not_ready(&Vec::new());
    assert_eq!(status, ExecutionStatus::NetworkNotReady);
    assert_eq!(detail, None);
}

#[test]
fn not_ready_lines_show_detail_only_when_verbose() {
    let advice = vec![
        "Network not ready - this may be a first-time Wi-Fi connection",
        "  Close any macOS network popup windows and try again",
        "  Or wait a few seconds for the network to stabilize",
    ];
    assert_eq!(network_not_ready_lines(false, None), advice);
    assert_eq!(network_not_ready_lines(true, None), advice);
    assert_eq!(network_not_ready_lines(false, Some("gateway_ip")), advice);
    let mut with_detail = advice.clone();
    with_detail.push("  Detail: gateway_ip");
    assert_eq!(network_not_ready_lines(true, Some("gateway_ip")), with_detail);
}

#[test]
fn progress_bar_fills_with_the_elapsed_share() {
    assert_eq!(progress_slots(0, 10), 0);
    assert_eq!(progress_slots(1, 10), 2);
    assert_eq!(progress_slots(5, 10), 10);
    assert_eq!(progress_slots(10, 10), 20);
    assert_eq!(progress_slots(11, 10), 20);
    assert_eq!(progress_slots(1, 3), 6);
    assert_eq!(progress_slots(0, 0), 0);
    assert_eq!(progress_slots(1, 0), 20);
    assert_eq!(progress_slots(u64::MAX, 1), 20);
    assert_eq!(progress_slots(u64::MAX, u64::MAX), 20);
    assert_eq!(progress_slots(u64::MAX - 1, u64::MAX), 19);
    let full = "\u{2588}";
    let empty = "\u{2591}";
    assert_eq!(
        progress_bar(5, 10),
        format!("[{}{}] 5s/10s", full.repeat(10), empty.repeat(10))
    );
    assert_eq!(progress_bar(0, 7), format!("[{}] 0s/7s", empty.repeat(20)));
    assert_eq!(progress_bar(9, 3), format!("[{}] 9s/3s", full.repeat(20)));
}

#[test]
fn cancel_flag_is_shared_and_stays_set() {
    let flag = CancelFlag::new();
    assert!(!flag.is_set());
    let other = flag.share();
    assert!(!other.is_set());
    other.set();
    assert!(flag.is_set());
    assert!(other.is_set());
    flag.set();
    assert!(flag.is_set());
    assert!(!CancelFlag::new().is_set());
}
