use downtime::probe::{classify, PingEvent, ProbeResult};

const REPLY: &str = "PING 192.168.1.1 (192.168.1.1) 56(84) bytes of data.\n\
64 bytes from 192.168.1.1: icmp_seq=1 ttl=64 time=0.411 ms\n\
\n\
--- 192.168.1.1 ping statistics ---\n\
1 packets transmitted, 1 received, 0% packet loss, time 0ms\n\
rtt min/avg/max/mdev = 0.411/0.411/0.411/0.000 ms\n";

const LOST: &str = "PING 10.255.255.1 (10.255.255.1) 56(84) bytes of data.\n\
\n\
--- 10.255.255.1 ping statistics ---\n\
1 packets transmitted, 0 received, 100% packet loss, time 0ms\n\
\n";

#[test]
fn ping_test() {
    let mut router: PingEvent = PingEvent {
        url: String::from("192.168.1.1"),
        ..Default::default()
    };
    let test: bool = router.ping(ProbeResult::from_output(Some(0), REPLY.as_bytes(), b""));

    assert_eq!(test, true);
    assert_eq!(router.ok, true);

    let mut url1: PingEvent = PingEvent {
        url: String::from("not_a_valid_url.com"),
        ..Default::default()
    };
    let test: bool = url1.ping(ProbeResult::from_output(
        Some(2),
        b"",
        b"ping: not_a_valid_url.com: Name or service not known\n",
    ));

    assert_eq!(test, false);
    assert_eq!(url1.ok, false);
    assert_eq!(url1.status, "2");
    assert_eq!(
        url1.stderr,
        "ping: not_a_valid_url.com: Name or service not known\n"
    );
}

#[test]
fn unresolved_host_is_a_failure_with_its_diagnostic() {
    let result = ProbeResult::from_output(
        Some(2),
        b"",
        b"ping: not_a_valid_url.com: Name or service not known\n",
    );
    assert!(!result.success);
    assert_eq!(result.exit_code, Some(String::from("2")));
    assert_eq!(result.stdout_text, "");
    assert_eq!(
        result.stderr_text,
        "ping: not_a_valid_url.com: Name or service not known\n"
    );
}

#[test]
fn classify_wants_the_whole_pattern() {
    assert!(classify(REPLY));
    assert!(classify("1 packets transmitted, 1 received, 0% packet loss"));
    assert!(!classify(LOST));
    assert!(!classify(""));
    assert!(!classify("1 packets transmitted, 1 received, 0% packet los"));
    assert!(!classify("2 packets transmitted, 2 received, 0% packet loss"));
    assert!(!classify("1 packets transmitted, 1 received, 10% packet loss"));
    // eleven sent and eleven received end in the same words
    assert!(classify("11 packets transmitted, 1 received, 0% packet loss"));
}

#[test]
fn default_host_is_a_placeholder() {
    let host = PingEvent::default();
    assert_eq!(host.url, "uninitialized");
    assert_eq!(host.status, "uninitialized");
    assert_eq!(host.stdout, "uninitialized");
    assert_eq!(host.stderr, "uninitialized");
    assert!(host.ok);
    let named = PingEvent::new("8.8.8.8");
    assert_eq!(
        named,
        PingEvent {
            url: String::from("8.8.8.8"),
            ..Default::default()
        }
    );
}

#[test]
fn result_of_a_reply_has_no_exit_code() {
    let result = ProbeResult::from_text(Some(0), String::from(REPLY), String::new());
    assert!(result.success);
    assert_eq!(result.exit_code, None);
    assert_eq!(result.stdout_text, REPLY);
    assert_eq!(result.stderr_text, "");
}

#[test]
fn result_of_a_loss_keeps_code_and_output() {
    let result = ProbeResult::from_text(Some(1), String::from(LOST), String::from("warn"));
    assert_eq!(
        result,
        ProbeResult {
            success: false,
            exit_code: Some(String::from("1")),
            stdout_text: String::from(LOST),
            stderr_text: String::from("warn"),
        }
    );
    let negative = ProbeResult::from_text(Some(-15), String::new(), String::new());
    assert_eq!(negative.exit_code, Some(String::from("-15")));
    let lowest = ProbeResult::from_text(Some(i32::MIN), String::new(), String::new());
    assert_eq!(lowest.exit_code, Some(String::from("-2147483648")));
    let highest = ProbeResult::from_text(Some(i32::MAX), String::new(), String::new());
    assert_eq!(highest.exit_code, Some(String::from("2147483647")));
}

#[test]
fn probe_ended_by_a_signal_shows_the_sentinel() {
    let result = ProbeResult::from_output(None, LOST.as_bytes(), b"");
    assert!(!result.success);
    assert_eq!(result.exit_code, None);
    let mut host = PingEvent::new("4.2.2.2");
    assert!(!host.ping(result));
    assert_eq!(host.status, "Process terminated by signal");
    assert_eq!(host.stdout, LOST);
    assert_eq!(host.stderr, "");
    assert!(!host.ok);
}

#[test]
fn success_keeps_the_diagnostics_of_the_last_failure() {
    let mut host = PingEvent::new("bbc.co.uk");
    assert!(!host.ping(ProbeResult::from_text(
        Some(1),
        String::from(LOST),
        String::from("e")
    )));
    assert!(host.ping(ProbeResult::from_text(
        Some(0),
        String::from(REPLY),
        String::new()
    )));
    assert_eq!(
        host,
        PingEvent {
            url: String::from("bbc.co.uk"),
            status: String::from("1"),
            stdout: String::from(LOST),
            stderr: String::from("e"),
            ok: true,
        }
    );
}

#[test]
fn bytes_that_are_no_text_are_replaced() {
    let result = ProbeResult::from_output(Some(1), b"ab\xffcd", b"\xc3\xa9\xc3");
    assert_eq!(result.stdout_text, "ab\u{fffd}cd");
    assert_eq!(result.stderr_text, "\u{e9}\u{fffd}");
    let reply = ProbeResult::from_output(
        Some(0),
        b"\xff 1 packets transmitted, 1 received, 0% packet loss \xff",
        b"",
    );
    assert!(reply.success);
}

#[test]
fn details_of_a_host() {
    let mut host = PingEvent::new("8.8.8.8");
    host.ping(ProbeResult::from_text(
        Some(1),
        String::from(LOST),
        String::from("first\nsecond\n"),
    ));
    assert_eq!(
        host.log_details(),
        vec![
            String::from("  url: 8.8.8.8"),
            String::from("  status: 1"),
            String::from("  stdout: PING 10.255.255.1 (10.255.255.1) 56(84) bytes of data."),
            String::from("    --- 10.255.255.1 ping statistics ---"),
            String::from("    1 packets transmitted, 0 received, 100% packet loss, time 0ms"),
            String::from("  stderr: first\nsecond\n"),
        ]
    );
    assert_eq!(
        PingEvent::default().log_details(),
        vec![
            String::from("  url: uninitialized"),
            String::from("  status: uninitialized"),
            String::from("  stdout: uninitialized"),
            String::from("  stderr: uninitialized"),
        ]
    );
}

#[test]
fn copy_of_a_host_is_equal() {
    let mut host = PingEvent::new("8.8.8.8");
    host.ping(ProbeResult::from_text(Some(1), String::from("o"), String::from("e")));
    assert_eq!(host.clone(), host);
}

#[test]
fn reply_counts_only_with_exit_code_zero() {
    let failed = ProbeResult::from_text(Some(1), String::from(REPLY), String::new());
    assert!(!failed.success);
    assert_eq!(failed.exit_code, Some(String::from("1")));
    let killed = ProbeResult::from_text(None, String::from(REPLY), String::new());
    assert!(!killed.success);
    assert_eq!(killed.exit_code, None);
    let quiet = ProbeResult::from_text(Some(0), String::from(LOST), String::new());
    assert!(!quiet.success);
    assert_eq!(quiet.exit_code, Some(String::from("0")));
}
