use downtime::event::{console_line_with, Event};
use downtime::probe::PingEvent;
use downtime::state::EventKind;

fn event(kind: EventKind, detail: Vec<PingEvent>) -> Event {
    Event { kind, timestamp: String::from("Thu, 1 Jan 1970 00:00:00 +0000 system time: 0"), detail }
}

fn host() -> PingEvent {
    PingEvent {
        url: String::from("192.168.1.1"),
        status: String::from("2"),
        stdout: String::from("a\n\nb\n"),
        stderr: String::from("c\n"),
        ok: false,
    }
}

#[test]
fn headers_name_the_kind() {
    let stamp = "Thu, 1 Jan 1970 00:00:00 +0000 system time: 0";
    let expected = [
        (EventKind::GatewayUp, "Router UP: "),
        (EventKind::GatewayDown, "Router DOWN: "),
        (EventKind::ConnectionUp, "CONNECTION UP: "),
        (EventKind::ConnectionDown, "CONNECTION DOWN: "),
        (EventKind::ProcessStart, "\nSTART: "),
        (EventKind::ProcessEnd, "END: "),
    ];
    for (kind, label) in expected {
        assert_eq!(event(kind, vec![]).header(), format!("{label}{stamp}"));
    }
}

#[test]
fn down_records_carry_the_details() {
    assert_eq!(
        event(EventKind::GatewayDown, vec![host()]).lines(),
        vec![
            String::from("Router DOWN: Thu, 1 Jan 1970 00:00:00 +0000 system time: 0"),
            String::from("  url: 192.168.1.1"),
            String::from("  status: 2"),
            String::from("  stdout: a"),
            String::from("    b"),
            String::from("  stderr: c\n"),
        ]
    );
    assert_eq!(
        event(EventKind::ConnectionDown, vec![]).lines(),
        vec![String::from("CONNECTION DOWN: Thu, 1 Jan 1970 00:00:00 +0000 system time: 0")]
    );
}

#[test]
fn other_records_are_one_line() {
    for kind in [
        EventKind::GatewayUp,
        EventKind::ConnectionUp,
        EventKind::ProcessStart,
        EventKind::ProcessEnd,
    ] {
        let record = event(kind, vec![host(), host()]);
        assert_eq!(record.lines(), vec![record.header()]);
    }
}

#[test]
fn start_and_end_of_the_process() {
    let start = Event::process_start("now");
    assert_eq!(
        start,
        Event { kind: EventKind::ProcessStart, timestamp: String::from("now"), detail: vec![] }
    );
    assert_eq!(start.lines(), vec![String::from("\nSTART: now")]);
    assert_eq!(start.console_line(), None);
    let end = Event::process_end("then");
    assert_eq!(
        end,
        Event { kind: EventKind::ProcessEnd, timestamp: String::from("then"), detail: vec![] }
    );
    assert_eq!(end.lines(), vec![String::from("END: then")]);
    assert_eq!(end.console_line(), Some(String::from("\nEXIT: then")));
}

#[test]
fn console_lines_with_and_without_colour() {
    let stamp = "Thu, 1 Jan 1970 00:00:00 +0000 system time: 0";
    colored::control::set_override(true);
    let coloured = [
        (EventKind::GatewayUp, "\x1B[92mRouter UP      \x1B[0m"),
        (EventKind::GatewayDown, "\x1B[91mRouter DOWN    \x1B[0m"),
        (EventKind::ConnectionUp, "\x1B[92mCONNECTION UP  \x1B[0m"),
        (EventKind::ConnectionDown, "\x1B[91mCONNECTION DOWN\x1B[0m"),
    ];
    for (kind, label) in coloured {
        assert_eq!(event(kind, vec![]).console_line(), Some(format!("{label} {stamp}")));
    }
    assert_eq!(
        event(EventKind::ProcessEnd, vec![]).console_line(),
        Some(format!("\nEXIT: {stamp}"))
    );
    colored::control::set_override(false);
    let plain = [
        (EventKind::GatewayUp, "Router UP      "),
        (EventKind::GatewayDown, "Router DOWN    "),
        (EventKind::ConnectionUp, "CONNECTION UP  "),
        (EventKind::ConnectionDown, "CONNECTION DOWN"),
    ];
    for (kind, label) in plain {
        assert_eq!(event(kind, vec![]).console_line(), Some(format!("{label} {stamp}")));
    }
    colored::control::unset_override();
}

#[test]
fn console_line_from_a_painted_label() {
    assert_eq!(console_line_with("Router UP      ", "now"), "Router UP       now");
    assert_eq!(console_line_with("", ""), " ");
}
