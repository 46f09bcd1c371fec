//! Unit-level checks: tokens, rendering, URL building, rate control,
//! identity rotation.

use qport::agents::{get_user_agents, select_user_agent, USER_AGENT_COUNT};
use qport::lookup::build_url;
use qport::output::{derive_output_name, result_line};
use qport::rate::{
    effective_concurrency, throttle_delay_ms, PermitGate, JITTER_MAX_MS, JITTER_MIN_MS,
};
use qport::text::{clean_token, port_to_string};

#[test]
fn tokens_are_trimmed_and_blank_lines_dropped() {
    assert_eq!(clean_token("  8.8.8.8  "), Some("8.8.8.8".to_string()));
    assert_eq!(clean_token("host.example\n"), Some("host.example".to_string()));
    assert_eq!(clean_token("\ta b\t"), Some("a b".to_string()));
    assert_eq!(clean_token("plain"), Some("plain".to_string()));
    assert_eq!(clean_token(""), None);
    assert_eq!(clean_token("   "), None);
    assert_eq!(clean_token(" \t\r\n"), None);
}

#[test]
fn ports_render_in_decimal() {
    assert_eq!(port_to_string(0), "0");
    assert_eq!(port_to_string(7), "7");
    assert_eq!(port_to_string(53), "53");
    assert_eq!(port_to_string(8080), "8080");
    assert_eq!(port_to_string(65535), "65535");
}

#[test]
fn result_lines_join_token_and_port() {
    assert_eq!(result_line("8.8.8.8", 53), "8.8.8.8:53");
    assert_eq!(result_line("host.example", 443), "host.example:443");
}

#[test]
fn urls_have_the_fixed_service_prefix() {
    assert_eq!(build_url("8.8.8.8"), "https://internetdb.shodan.io/8.8.8.8");
    assert_eq!(build_url("2606:2800::1"), "https://internetdb.shodan.io/2606:2800::1");
}

#[test]
fn output_name_derivation() {
    assert_eq!(derive_output_name("hosts.txt"), "hosts_results.txt");
    assert_eq!(derive_output_name("hosts"), "hosts_results.txt");
    assert_eq!(derive_output_name("a.txt.txt"), "a.txt_results.txt");
    assert_eq!(derive_output_name(".txt"), "_results.txt");
    assert_eq!(derive_output_name("txt"), "txt_results.txt");
}

#[test]
fn concurrency_is_clamped_to_the_band() {
    // Operator values, including zero and a huge one.
    assert_eq!(effective_concurrency(Some(0), 50, 1, 10), (1, true));
    assert_eq!(effective_concurrency(Some(5), 50, 1, 10), (5, false));
    assert_eq!(effective_concurrency(Some(u64::MAX), 50, 1, 10), (10, true));
    // Auto-computed from the input size: one permit per hundred
    // tokens, rounded up, floored and capped.
    assert_eq!(effective_concurrency(None, 0, 2, 64), (2, false));
    assert_eq!(effective_concurrency(None, 100, 1, 64), (1, false));
    assert_eq!(effective_concurrency(None, 101, 1, 64), (2, false));
    assert_eq!(effective_concurrency(None, 250, 1, 64), (3, false));
    assert_eq!(effective_concurrency(None, 1_000_000, 1, 64), (64, false));
}

#[test]
fn permit_gate_never_exceeds_capacity() {
    let mut gate = PermitGate::new(2);
    assert!(gate.try_acquire());
    assert!(gate.try_acquire());
    assert!(!gate.try_acquire());
    gate.release();
    assert!(gate.try_acquire());
    assert!(!gate.try_acquire());
    gate.release();
    gate.release();
    assert!(gate.try_acquire());
}

#[test]
fn jitter_stays_in_its_bounds() {
    for _ in 0..1000 {
        let d = throttle_delay_ms();
        assert!((JITTER_MIN_MS..JITTER_MAX_MS).contains(&d));
    }
}

#[test]
fn the_pool_is_fixed_and_its_entries_usable() {
    let pool = get_user_agents();
    assert_eq!(pool.len(), USER_AGENT_COUNT);
    for ua in &pool {
        assert!(!ua.is_empty());
    }
}

#[test]
fn rotation_covers_the_pool_evenly() {
    let pool = get_user_agents();
    let n = pool.len();
    // Any window of pool-size consecutive counters picks every entry
    // exactly once.
    for start in [0usize, 1, 7, n - 1, n, 5 * n + 3] {
        let mut seen = vec![0usize; n];
        for c in start..start + n {
            let picked = select_user_agent(&pool, c);
            let idx = pool.iter().position(|ua| *ua == picked).unwrap();
            seen[idx] += 1;
        }
        assert!(seen.iter().all(|&count| count == 1));
    }
}

#[test]
fn rotation_is_periodic_in_the_pool_size() {
    let pool = get_user_agents();
    let n = pool.len();
    for c in [0usize, 1, 42] {
        assert_eq!(select_user_agent(&pool, c), select_user_agent(&pool, c + n));
    }
}
