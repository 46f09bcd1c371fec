//! End-to-end scenarios over the library: resolve, query, aggregate,
//! render.

use qport::aggregate::{AggregateResult, HostOutcome, collect_host_outcome};
use qport::lookup::{
    FailReason, LookupOutcome, QueryEvent, QueryStep, ServiceReport, step_query, MAX_RETRIES,
    RETRY_COOLDOWN_MS,
};
use qport::output::{render_lines, render_unique_lines};
use qport::resolver::resolve_with;

fn success_event(ip: &str, ports: Vec<u16>, hostnames: Vec<String>) -> QueryEvent {
    QueryEvent::Response {
        status: 200,
        body: Some(ServiceReport { ip: ip.to_string(), ports, hostnames }),
    }
}

fn run_query_to_done(address: &str, events: Vec<QueryEvent>) -> (LookupOutcome, usize) {
    let mut retries: u32 = 0;
    let mut attempts: usize = 0;
    for event in events {
        attempts += 1;
        match step_query(address, retries, MAX_RETRIES, event) {
            QueryStep::Done(outcome) => return (outcome, attempts),
            QueryStep::Retry { retries: next, cooldown_ms } => {
                assert_eq!(cooldown_ms, RETRY_COOLDOWN_MS);
                retries = next;
            }
        }
    }
    panic!("query never finished");
}

#[test]
fn resolver_always_yields_an_address() {
    let failed = resolve_with("no-such-host.invalid", None);
    assert_eq!(failed, vec!["no-such-host.invalid".to_string()]);

    let resolved = resolve_with(
        "example.com",
        Some(vec!["93.184.216.34".to_string(), "2606:2800::1".to_string()]),
    );
    assert_eq!(resolved.len(), 2);
    assert_eq!(resolved[0], "93.184.216.34");

    let empty = resolve_with("example.com", Some(Vec::new()));
    assert_eq!(empty, vec!["example.com".to_string()]);
}

#[test]
fn three_rate_limited_responses_give_one_failure() {
    let events = vec![
        QueryEvent::Response { status: 429, body: None },
        QueryEvent::Response { status: 429, body: None },
        QueryEvent::Response { status: 429, body: None },
    ];
    let (outcome, attempts) = run_query_to_done("8.8.8.8", events);
    assert_eq!(attempts, 3);
    match outcome {
        LookupOutcome::Failure { address, reason } => {
            assert_eq!(address, "8.8.8.8");
            assert!(matches!(reason, FailReason::RateLimitExhausted));
        }
        LookupOutcome::Success { .. } => panic!("expected a failure"),
    }
}

#[test]
fn rate_limit_below_budget_still_succeeds() {
    let events = vec![
        QueryEvent::Response { status: 429, body: None },
        QueryEvent::Response { status: 429, body: None },
        success_event("8.8.8.8", vec![53], Vec::new()),
    ];
    let (outcome, attempts) = run_query_to_done("8.8.8.8", events);
    assert_eq!(attempts, 3);
    assert!(matches!(outcome, LookupOutcome::Success { .. }));
}

#[test]
fn terminal_status_fails_without_retry() {
    let events = vec![QueryEvent::Response { status: 404, body: None }];
    let (outcome, attempts) = run_query_to_done("8.8.8.8", events);
    assert_eq!(attempts, 1);
    match outcome {
        LookupOutcome::Failure { reason, .. } => {
            assert!(matches!(reason, FailReason::HttpStatus(404)));
        }
        _ => panic!("expected a failure"),
    }
}

#[test]
fn success_status_range_is_exactly_2xx() {
    for status in [200u16, 204, 299] {
        let events = vec![QueryEvent::Response {
            status,
            body: Some(ServiceReport {
                ip: "8.8.8.8".to_string(),
                ports: vec![53],
                hostnames: Vec::new(),
            }),
        }];
        let (outcome, _) = run_query_to_done("8.8.8.8", events);
        assert!(matches!(outcome, LookupOutcome::Success { .. }));
    }
    for status in [199u16, 300, 500] {
        let events = vec![QueryEvent::Response { status, body: None }];
        let (outcome, _) = run_query_to_done("8.8.8.8", events);
        match outcome {
            LookupOutcome::Failure { reason, .. } => {
                assert!(matches!(reason, FailReason::HttpStatus(s) if s == status));
            }
            _ => panic!("expected a failure"),
        }
    }
}

#[test]
fn undecodable_body_fails() {
    let events = vec![QueryEvent::Response { status: 200, body: None }];
    let (outcome, _) = run_query_to_done("8.8.8.8", events);
    match outcome {
        LookupOutcome::Failure { reason, .. } => {
            assert!(matches!(reason, FailReason::UndecodableBody));
        }
        _ => panic!("expected a failure"),
    }
}

#[test]
fn transport_error_fails_at_once() {
    let (outcome, attempts) = run_query_to_done("8.8.8.8", vec![QueryEvent::Transport]);
    assert_eq!(attempts, 1);
    match outcome {
        LookupOutcome::Failure { reason, .. } => {
            assert!(matches!(reason, FailReason::Transport));
        }
        _ => panic!("expected a failure"),
    }
}

#[test]
fn mocked_run_over_one_literal_address() {
    // Input ["8.8.8.8"], service reports ports 53 and 443.
    let token = "8.8.8.8";
    let addresses = resolve_with(token, None);
    assert_eq!(addresses, vec![token.to_string()]);

    let mut outcomes = Vec::new();
    for address in &addresses {
        let events = vec![success_event(address, vec![53, 443], Vec::new())];
        let (outcome, _) = run_query_to_done(address, events);
        outcomes.push(outcome);
    }
    let host = collect_host_outcome(token.to_string(), outcomes);
    assert_eq!(host.success_count, 1);
    assert_eq!(host.fail_count, 0);

    let mut agg = AggregateResult::new();
    agg.merge(host);
    assert_eq!(agg.hosts_processed, 1);
    assert_eq!(agg.queries_ok, 1);
    assert_eq!(agg.queries_failed, 0);

    let lines = render_lines(&agg);
    assert_eq!(lines, vec!["8.8.8.8:53".to_string(), "8.8.8.8:443".to_string()]);

    let unique = render_unique_lines(&agg);
    assert_eq!(unique, vec!["8.8.8.8:53".to_string()]);
}

#[test]
fn failing_token_yields_no_lines_and_one_counted_failure() {
    // DNS fails, and the literal-address query fails too.
    let token = "definitely-not-resolvable.invalid";
    let addresses = resolve_with(token, None);
    assert_eq!(addresses.len(), 1);

    let mut outcomes = Vec::new();
    for address in &addresses {
        let (outcome, _) = run_query_to_done(address, vec![QueryEvent::Transport]);
        outcomes.push(outcome);
    }
    let host = collect_host_outcome(token.to_string(), outcomes);
    assert_eq!(host.success_count, 0);
    assert_eq!(host.fail_count, 1);

    let mut agg = AggregateResult::new();
    agg.merge(host);
    assert_eq!(agg.queries_failed, 1);

    let lines = render_lines(&agg);
    assert!(lines.is_empty());
}

#[test]
fn line_count_equals_total_reported_ports() {
    let mut agg = AggregateResult::new();

    let mut first = HostOutcome::new("alpha.example".to_string());
    first.record(LookupOutcome::Success {
        address: "10.0.0.1".to_string(),
        ports: vec![22, 80, 8080],
        hostnames: Vec::new(),
    });
    first.record(LookupOutcome::Success {
        address: "10.0.0.2".to_string(),
        ports: vec![443],
        hostnames: Vec::new(),
    });
    agg.merge(first);

    let mut second = HostOutcome::new("beta.example".to_string());
    second.record(LookupOutcome::Success {
        address: "10.0.1.1".to_string(),
        ports: vec![21, 21, 3306],
        hostnames: Vec::new(),
    });
    agg.merge(second);

    let lines = render_lines(&agg);
    // 3 + 1 + 3 reported ports, duplicates preserved.
    assert_eq!(lines.len(), 7);
    assert_eq!(lines[0], "alpha.example:22");
    assert_eq!(lines[3], "alpha.example:443");
    assert_eq!(lines[4], "beta.example:21");
    assert_eq!(lines[5], "beta.example:21");
}

#[test]
fn unique_lines_are_a_subset_without_common_web_ports() {
    let mut agg = AggregateResult::new();
    let mut host = HostOutcome::new("gamma.example".to_string());
    host.record(LookupOutcome::Success {
        address: "10.0.2.1".to_string(),
        ports: vec![80, 443, 8443, 22, 443],
        hostnames: Vec::new(),
    });
    agg.merge(host);

    let lines = render_lines(&agg);
    let unique = render_unique_lines(&agg);
    assert_eq!(unique, vec!["gamma.example:8443".to_string(), "gamma.example:22".to_string()]);
    for line in &unique {
        assert!(lines.contains(line));
        assert!(!line.ends_with(":80") && !line.ends_with(":443"));
    }
}

#[test]
fn repeated_token_keeps_the_last_outcome() {
    let mut agg = AggregateResult::new();

    let mut first = HostOutcome::new("dup.example".to_string());
    first.record(LookupOutcome::Success {
        address: "10.0.3.1".to_string(),
        ports: vec![1, 2, 3],
        hostnames: Vec::new(),
    });
    agg.merge(first);

    let mut second = HostOutcome::new("dup.example".to_string());
    second.record(LookupOutcome::Success {
        address: "10.0.3.1".to_string(),
        ports: vec![9],
        hostnames: Vec::new(),
    });
    agg.merge(second);

    assert_eq!(agg.entries.len(), 1);
    assert_eq!(agg.hosts_processed, 2);
    assert_eq!(agg.queries_ok, 2);
    let lines = render_lines(&agg);
    assert_eq!(lines, vec!["dup.example:9".to_string()]);
}

#[test]
fn failure_of_one_address_spares_the_others() {
    let token = "mixed.example";
    let outcomes = vec![
        LookupOutcome::Success {
            address: "10.0.4.1".to_string(),
            ports: vec![25],
            hostnames: Vec::new(),
        },
        LookupOutcome::Failure {
            address: "10.0.4.2".to_string(),
            reason: FailReason::Transport,
        },
        LookupOutcome::Success {
            address: "10.0.4.3".to_string(),
            ports: vec![587],
            hostnames: Vec::new(),
        },
    ];
    let host = collect_host_outcome(token.to_string(), outcomes);
    assert_eq!(host.success_count, 2);
    assert_eq!(host.fail_count, 1);
    assert_eq!(host.reports.len(), 2);
    assert_eq!(host.reports[0].address, "10.0.4.1");
    assert_eq!(host.reports[1].address, "10.0.4.3");
}
