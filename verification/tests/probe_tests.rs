use conntest::address::choose_address;
use conntest::{
    report_line, step, Elapsed, ProbeAction, ProbeError, ProbeEvent, ProbeOutcome, ProbeState,
    SocketAddress, TimeSpan,
};
use std::time::Duration;

const LOCALHOST: u32 = 0x7f00_0001;

fn v4(port: u16) -> SocketAddress {
    SocketAddress::V4 { ip: LOCALHOST, port }
}

/// A measured time as the front end hands it in: the span, and its seconds
/// written with three decimals by the float formatting of std.
fn measured(secs: u64, nanos: u32) -> Elapsed {
    let seconds: f64 = Duration::new(secs, nanos).as_secs_f64();
    Elapsed { span: TimeSpan { secs, nanos }, seconds: format!("{:.3}", seconds) }
}

fn millis(ms: u64) -> Elapsed {
    measured(ms / 1_000, (ms % 1_000) as u32 * 1_000_000)
}

fn refused() -> String {
    String::from("Connection refused (os error 111)")
}

/// Feeds the events to a fresh probe and hands back the last state and
/// every action asked for.
fn run(events: Vec<ProbeEvent>, default_port: u16) -> (ProbeState, Vec<ProbeAction>) {
    let mut state = ProbeState::Idle;
    let mut actions: Vec<ProbeAction> = Vec::new();
    for event in events {
        let (after, action) = step(state, event, default_port);
        state = after;
        actions.push(action);
    }
    (state, actions)
}

#[test]
fn explicit_port_wins() {
    assert_eq!(choose_address(&vec![v4(2222)], 22), Some(v4(2222)));
    assert_eq!(choose_address(&vec![v4(1)], 22), Some(v4(1)));
    assert_eq!(choose_address(&vec![v4(65_535)], 22), Some(v4(65_535)));
}

#[test]
fn missing_port_takes_the_default() {
    assert_eq!(choose_address(&vec![v4(0)], 22), Some(v4(22)));
    assert_eq!(choose_address(&vec![v4(0)], 0), Some(v4(0)));
    let six = SocketAddress::V6 { ip: 1, port: 0, flowinfo: 7, scope_id: 3 };
    assert_eq!(
        choose_address(&vec![six], 8080),
        Some(SocketAddress::V6 { ip: 1, port: 8080, flowinfo: 7, scope_id: 3 })
    );
}

#[test]
fn first_candidate_is_used() {
    let other = SocketAddress::V4 { ip: 0x0a00_0001, port: 80 };
    assert_eq!(choose_address(&vec![v4(0), other], 22), Some(v4(22)));
    assert_eq!(choose_address(&vec![other, v4(0)], 22), Some(other));
}

#[test]
fn no_candidate_no_address() {
    assert_eq!(choose_address(&Vec::new(), 22), None);
}

#[test]
fn port_and_with_port() {
    assert_eq!(v4(22).port(), 22);
    assert_eq!(v4(22).with_port(23), v4(23));
    let six = SocketAddress::V6 { ip: 9, port: 5, flowinfo: 1, scope_id: 2 };
    assert_eq!(six.port(), 5);
    assert_eq!(six.with_port(6), SocketAddress::V6 { ip: 9, port: 6, flowinfo: 1, scope_id: 2 });
}

#[test]
fn refused_connection_is_a_failure_that_is_no_timeout() {
    let (state, actions) = run(
        vec![
            ProbeEvent::Started,
            ProbeEvent::LookupAnswered { candidates: vec![v4(9)] },
            ProbeEvent::ConnectFailed { reason: refused() },
        ],
        22,
    );
    assert_eq!(state, ProbeState::Done);
    let outcome = ProbeOutcome::Failure { cause: ProbeError::ConnectFailed { reason: refused() } };
    assert_eq!(
        actions,
        vec![
            ProbeAction::Lookup,
            ProbeAction::Connect { address: v4(9) },
            ProbeAction::Report { address: Some(v4(9)), outcome: outcome.clone() },
        ]
    );
    assert!(!outcome.is_success());
    let line = report_line("localhost:9", 22, Some("127.0.0.1:9"), &outcome);
    assert_eq!(line, "127.0.0.1:9  failed due to: Connection refused (os error 111)");
    assert!(!line.contains("Timeout after"));
}

#[test]
fn silent_address_times_out_after_the_timeout() {
    let (state, actions) = run(
        vec![
            ProbeEvent::Started,
            ProbeEvent::LookupAnswered { candidates: vec![SocketAddress::V4 { ip: 0x0aff_ffff, port: 0 }] },
            ProbeEvent::TimedOut { elapsed: millis(200) },
        ],
        22,
    );
    assert_eq!(state, ProbeState::Done);
    let dialled = SocketAddress::V4 { ip: 0x0aff_ffff, port: 22 };
    let outcome = ProbeOutcome::Failure {
        cause: ProbeError::ConnectTimeout { elapsed: millis(200) },
    };
    assert_eq!(actions[1], ProbeAction::Connect { address: dialled });
    assert_eq!(actions[2], ProbeAction::Report { address: Some(dialled), outcome: outcome.clone() });
    assert_eq!(
        report_line("10.255.255.255", 22, Some("10.255.255.255:22"), &outcome),
        "10.255.255.255:22  failed due to: Timeout after 0.200 seconds"
    );
}

#[test]
fn closed_port_fails_and_listening_port_works() {
    let timeout = TimeSpan::from_millis(5_000);
    let (_, closed) = run(
        vec![
            ProbeEvent::Started,
            ProbeEvent::LookupAnswered { candidates: vec![v4(1)] },
            ProbeEvent::ConnectFailed { reason: refused() },
        ],
        22,
    );
    let (_, open) = run(
        vec![
            ProbeEvent::Started,
            ProbeEvent::LookupAnswered { candidates: vec![v4(8080)] },
            ProbeEvent::Connected { elapsed: measured(0, 187_000) },
        ],
        22,
    );
    assert_eq!(
        closed[2],
        ProbeAction::Report {
            address: Some(v4(1)),
            outcome: ProbeOutcome::Failure {
                cause: ProbeError::ConnectFailed { reason: refused() }
            },
        }
    );
    match &open[2] {
        ProbeAction::Report { address, outcome } => {
            assert_eq!(*address, Some(v4(8080)));
            assert_eq!(*outcome, ProbeOutcome::Success { elapsed: measured(0, 187_000) });
            assert!(outcome.is_success());
            assert!(!measured(0, 187_000).span.is_zero());
            assert!(measured(0, 187_000).span.as_millis() < timeout.as_millis());
            assert_eq!(
                report_line("127.0.0.1:8080", 22, Some("127.0.0.1:8080"), outcome),
                "127.0.0.1:8080  worked in 0.000 seconds"
            );
        },
        other => panic!("no report: {:?}", other),
    }
}

#[test]
fn seconds_are_written_as_they_are_handed_in() {
    let odd = Elapsed { span: TimeSpan { secs: 3, nanos: 0 }, seconds: String::from("about 3") };
    assert_eq!(
        ProbeError::ConnectTimeout { elapsed: odd.clone() }.reason(),
        "Timeout after about 3 seconds"
    );
    assert_eq!(
        report_line("h", 22, Some("h:22"), &ProbeOutcome::Success { elapsed: odd.clone() }),
        "h:22  worked in about 3 seconds"
    );
    let blank = Elapsed { span: TimeSpan { secs: 0, nanos: 0 }, seconds: String::new() };
    assert_eq!(
        report_line("h", 22, Some("h:22"), &ProbeOutcome::Success { elapsed: blank }),
        "h:22  worked in  seconds"
    );
}

#[test]
fn timeout_reason_with_seconds_from_float_formatting() {
    let late = ProbeOutcome::Failure {
        cause: ProbeError::ConnectTimeout { elapsed: measured(0, 200_600_000) },
    };
    assert_eq!(
        report_line("host", 22, Some("10.0.0.1:22"), &late),
        "10.0.0.1:22  failed due to: Timeout after 0.201 seconds"
    );
    assert_eq!(
        ProbeError::ConnectTimeout { elapsed: measured(0, 200_400_000) }.reason(),
        "Timeout after 0.200 seconds"
    );
    assert_eq!(
        ProbeError::ConnectTimeout { elapsed: measured(1, 500_000) }.reason(),
        "Timeout after 1.000 seconds"
    );
    assert_eq!(
        ProbeError::ConnectTimeout { elapsed: measured(1, 234_500_000) }.reason(),
        "Timeout after 1.234 seconds"
    );
    assert_eq!(
        ProbeError::ConnectTimeout { elapsed: measured(2, 7_500_000) }.reason(),
        "Timeout after 2.007 seconds"
    );
}

#[test]
fn success_line() {
    let outcome = ProbeOutcome::Success { elapsed: measured(1, 23_456_789) };
    assert!(outcome.is_success());
    assert_eq!(
        report_line("host", 22, Some("host:22"), &outcome),
        "host:22  worked in 1.023 seconds"
    );
    let slower = ProbeOutcome::Success { elapsed: measured(1, 23_556_789) };
    assert_eq!(
        report_line("host", 22, Some("host:22"), &slower),
        "host:22  worked in 1.024 seconds"
    );
    assert_eq!(report_line("host", 22, Some(""), &outcome), "  worked in 1.023 seconds");
}

#[test]
fn label_without_a_dialled_address_is_target_and_default_port() {
    let outcome = ProbeOutcome::Failure { cause: ProbeError::NoAddressFound };
    assert_eq!(
        report_line("10.0.0.1", 22, None, &outcome),
        "10.0.0.1:22  failed due to: uh bad address not sure"
    );
    assert_eq!(
        report_line("host:80", 65_535, None, &outcome),
        "host:80:65535  failed due to: uh bad address not sure"
    );
    assert_eq!(report_line("", 0, None, &outcome), ":0  failed due to: uh bad address not sure");
    assert_eq!(
        report_line("10.0.0.1", 22, Some("10.0.0.1:2222"), &outcome),
        "10.0.0.1:2222  failed due to: uh bad address not sure"
    );
}

#[test]
fn reasons() {
    assert_eq!(
        ProbeError::ResolutionFailed { reason: String::from("invalid socket address") }.reason(),
        "invalid socket address"
    );
    assert_eq!(ProbeError::NoAddressFound.reason(), "uh bad address not sure");
    assert_eq!(
        ProbeError::ConnectTimeout { elapsed: measured(5, 1_999_999) }.reason(),
        "Timeout after 5.002 seconds"
    );
    assert_eq!(
        ProbeError::ConnectFailed { reason: String::from("Network is unreachable") }.reason(),
        "Network is unreachable"
    );
}

#[test]
fn target_without_port_is_looked_up_as_host() {
    let (state, actions) = run(
        vec![
            ProbeEvent::Started,
            ProbeEvent::LookupFailed { reason: String::from("invalid socket address") },
            ProbeEvent::LookupAnswered { candidates: vec![v4(0)] },
        ],
        22,
    );
    assert_eq!(state, ProbeState::Connecting { address: v4(22) });
    assert_eq!(
        actions,
        vec![ProbeAction::Lookup, ProbeAction::LookupHost, ProbeAction::Connect { address: v4(22) }]
    );
}

#[test]
fn second_failed_lookup_fails_the_probe() {
    let (state, actions) = run(
        vec![
            ProbeEvent::Started,
            ProbeEvent::LookupFailed { reason: String::from("invalid socket address") },
            ProbeEvent::LookupFailed { reason: String::from("failed to lookup address information") },
        ],
        22,
    );
    assert_eq!(state, ProbeState::Done);
    let outcome = ProbeOutcome::Failure {
        cause: ProbeError::ResolutionFailed {
            reason: String::from("failed to lookup address information"),
        },
    };
    assert_eq!(actions[2], ProbeAction::Report { address: None, outcome: outcome.clone() });
    assert_eq!(
        report_line("nowhere", 22, None, &outcome),
        "nowhere:22  failed due to: failed to lookup address information"
    );
}

#[test]
fn empty_answer_fails_the_probe() {
    let (state, actions) = run(
        vec![ProbeEvent::Started, ProbeEvent::LookupAnswered { candidates: Vec::new() }],
        22,
    );
    assert_eq!(state, ProbeState::Done);
    let outcome = ProbeOutcome::Failure { cause: ProbeError::NoAddressFound };
    assert_eq!(actions[1], ProbeAction::Report { address: None, outcome: outcome.clone() });
    assert_eq!(
        report_line("x", 22, None, &outcome),
        "x:22  failed due to: uh bad address not sure"
    );
    let (later, _) = run(
        vec![
            ProbeEvent::Started,
            ProbeEvent::LookupFailed { reason: String::new() },
            ProbeEvent::LookupAnswered { candidates: Vec::new() },
        ],
        22,
    );
    assert_eq!(later, ProbeState::Done);
}

#[test]
fn events_out_of_turn_change_nothing() {
    let stray = vec![
        ProbeEvent::LookupFailed { reason: String::from("x") },
        ProbeEvent::LookupAnswered { candidates: vec![v4(1)] },
        ProbeEvent::Connected { elapsed: millis(1) },
        ProbeEvent::TimedOut { elapsed: millis(1) },
        ProbeEvent::ConnectFailed { reason: String::from("x") },
    ];
    for event in stray {
        assert_eq!(step(ProbeState::Idle, event, 22), (ProbeState::Idle, ProbeAction::Nothing));
    }
    assert_eq!(
        step(ProbeState::Resolving, ProbeEvent::Started, 22),
        (ProbeState::Resolving, ProbeAction::Nothing)
    );
    assert_eq!(
        step(ProbeState::Resolving, ProbeEvent::Connected { elapsed: millis(1) }, 22),
        (ProbeState::Resolving, ProbeAction::Nothing)
    );
    assert_eq!(
        step(ProbeState::Connecting { address: v4(1) }, ProbeEvent::Started, 22),
        (ProbeState::Connecting { address: v4(1) }, ProbeAction::Nothing)
    );
    assert_eq!(
        step(
            ProbeState::Connecting { address: v4(1) },
            ProbeEvent::LookupAnswered { candidates: vec![v4(2)] },
            22
        ),
        (ProbeState::Connecting { address: v4(1) }, ProbeAction::Nothing)
    );
}

#[test]
fn a_probe_reports_once_and_dials_once() {
    let (state, actions) = run(
        vec![
            ProbeEvent::Started,
            ProbeEvent::Started,
            ProbeEvent::LookupAnswered { candidates: vec![v4(80)] },
            ProbeEvent::LookupAnswered { candidates: vec![v4(81)] },
            ProbeEvent::TimedOut { elapsed: millis(200) },
            ProbeEvent::Connected { elapsed: millis(1) },
            ProbeEvent::Started,
            ProbeEvent::LookupAnswered { candidates: vec![v4(82)] },
            ProbeEvent::ConnectFailed { reason: refused() },
        ],
        22,
    );
    assert_eq!(state, ProbeState::Done);
    let reports = actions.iter().filter(|a| matches!(a, ProbeAction::Report { .. })).count();
    let connects = actions.iter().filter(|a| matches!(a, ProbeAction::Connect { .. })).count();
    assert_eq!(reports, 1);
    assert_eq!(connects, 1);
    assert_eq!(actions[2], ProbeAction::Connect { address: v4(80) });
    assert_eq!(
        actions[4],
        ProbeAction::Report {
            address: Some(v4(80)),
            outcome: ProbeOutcome::Failure {
                cause: ProbeError::ConnectTimeout { elapsed: millis(200) }
            },
        }
    );
}
