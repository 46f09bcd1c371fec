//! One query against the host-intelligence service: the fixed request
//! URL, the classification of the response, and the bounded retry on
//! rate limiting.
//!
//! The HTTP exchange itself happens outside this crate. The caller
//! feeds each response back in as a [`QueryEvent`]; [`step_query`]
//! decides whether the query is over — and with which outcome — or
//! must be retried after a cooldown.

use vstd::prelude::*;
use vstd::string::*;

verus! {

/// How many times one address is re-queried after a rate-limited
/// response before the query is given up.
pub const MAX_RETRIES: u32 = 2;

/// Fixed cooldown between a rate-limited response and the retry.
pub const RETRY_COOLDOWN_MS: u64 = 1000;

/// The status with which the service signals rate limiting.
pub const STATUS_RATE_LIMITED: u16 = 429;

/// A decoded response body: the queried address as the service echoes
/// it, the open ports it reports (order and duplicates preserved), and
/// the hostnames it knows for the address.
pub struct ServiceReport {
    pub ip: String,
    pub ports: Vec<u16>,
    pub hostnames: Vec<String>,
}

/// What one HTTP exchange for one address came to, as seen at the
/// wire: either a response with its status and — when the status was
/// a success and the body decodable — the decoded body, or no
/// response at all (timeout, connection failure).
pub enum QueryEvent {
    Response { status: u16, body: Option<ServiceReport> },
    Transport,
}

/// Why a query failed.
pub enum FailReason {
    /// A success status whose body did not decode.
    UndecodableBody,
    /// A terminal status: neither a success nor rate limiting.
    HttpStatus(u16),
    /// Rate-limited on every attempt until the retry budget ran out.
    RateLimitExhausted,
    /// The exchange itself failed: timeout or connection error.
    Transport,
}

/// The post-retry result of querying one address.
pub enum LookupOutcome {
    Success { address: String, ports: Vec<u16>, hostnames: Vec<String> },
    Failure { address: String, reason: FailReason },
}

/// What the driver must do next with one address's query.
pub enum QueryStep {
    /// The query is over; record this outcome and move on.
    Done(LookupOutcome),
    /// Sleep `cooldown_ms`, then attempt the same address again with
    /// the new retry count.
    Retry { retries: u32, cooldown_ms: u64 },
}

/// Success statuses of the wire protocol: the 2xx range.
pub open spec fn is_success_status(status: u16) -> bool {
    200 <= status < 300
}

/// The retry count after one more rate-limited response, or `None`
/// when the budget is exhausted.
pub open spec fn next_retries(retries: u32, max_retries: u32) -> Option<u32> {
    if retries < max_retries {
        Some((retries + 1) as u32)
    } else {
        None
    }
}

/// Exact classification of a 2xx status.
pub fn status_is_success(status: u16) -> (r: bool)
    ensures
        r == is_success_status(status),
{
    200 <= status && status < 300
}

/// The fixed-form request URL for one address.
pub fn build_url(address: &str) -> (r: String)
    ensures
        r@ == "https://internetdb.shodan.io/"@ + address@,
{
    let mut url = String::from_str("https://internetdb.shodan.io/");
    url.append(address);
    url
}

/// One turn of the per-address query machine.
///
/// `retries` counts the rate-limited responses already absorbed for
/// this address. A response with a success status ends the query —
/// successfully when its body decoded, as an undecodable-body failure
/// otherwise. A rate-limited response is retried after a fixed
/// cooldown until `max_retries` retries are spent, then reclassified
/// as a terminal failure. Any other status, and any transport
/// failure, ends the query at once. Failures are returned as data,
/// never raised.
pub fn step_query(address: &str, retries: u32, max_retries: u32, event: QueryEvent) -> (r:
    QueryStep)
    ensures
        (match event {
            QueryEvent::Transport => r matches QueryStep::Done(
                LookupOutcome::Failure { address: a, reason },
            ) && a@ == address@ && reason == FailReason::Transport,
            QueryEvent::Response { status, body } => {
                if is_success_status(status) {
                    match body {
                        Some(rep) => r matches QueryStep::Done(
                            LookupOutcome::Success { address: a, ports, hostnames },
                        ) && a@ == address@ && ports == rep.ports && hostnames == rep.hostnames,
                        None => r matches QueryStep::Done(
                            LookupOutcome::Failure { address: a, reason },
                        ) && a@ == address@ && reason == FailReason::UndecodableBody,
                    }
                } else if status == STATUS_RATE_LIMITED {
                    match next_retries(retries, max_retries) {
                        Some(n) => r == (QueryStep::Retry {
                            retries: n,
                            cooldown_ms: RETRY_COOLDOWN_MS,
                        }),
                        None => r matches QueryStep::Done(
                            LookupOutcome::Failure { address: a, reason },
                        ) && a@ == address@ && reason == FailReason::RateLimitExhausted,
                    }
                } else {
                    r matches QueryStep::Done(LookupOutcome::Failure { address: a, reason })
                        && a@ == address@ && reason == FailReason::HttpStatus(status)
                }
            },
        }),
{
    match event {
        QueryEvent::Transport => QueryStep::Done(
            LookupOutcome::Failure {
                address: String::from_str(address),
                reason: FailReason::Transport,
            },
        ),
        QueryEvent::Response { status, body } => {
            if status_is_success(status) {
                match body {
                    Some(rep) => QueryStep::Done(
                        LookupOutcome::Success {
                            address: String::from_str(address),
                            ports: rep.ports,
                            hostnames: rep.hostnames,
                        },
                    ),
                    None => QueryStep::Done(
                        LookupOutcome::Failure {
                            address: String::from_str(address),
                            reason: FailReason::UndecodableBody,
                        },
                    ),
                }
            } else if status == STATUS_RATE_LIMITED {
                if retries < max_retries {
                    QueryStep::Retry { retries: retries + 1, cooldown_ms: RETRY_COOLDOWN_MS }
                } else {
                    QueryStep::Done(
                        LookupOutcome::Failure {
                            address: String::from_str(address),
                            reason: FailReason::RateLimitExhausted,
                        },
                    )
                }
            } else {
                QueryStep::Done(
                    LookupOutcome::Failure {
                        address: String::from_str(address),
                        reason: FailReason::HttpStatus(status),
                    },
                )
            }
        },
    }
}

/// The retry count a query still holds after absorbing `feeds`
/// rate-limited responses in a row, or `None` once it has given up.
pub open spec fn surviving_retries(feeds: nat, max_retries: u32) -> Option<u32>
    decreases feeds,
{
    if feeds == 0 {
        Some(0u32)
    } else {
        match surviving_retries((feeds - 1) as nat, max_retries) {
            Some(r) => next_retries(r, max_retries),
            None => None,
        }
    }
}

/// Law: a query that meets nothing but rate-limited responses stays
/// alive through exactly `max_retries` of them — each one answered by
/// a retry — and the next one is the single terminal failure; past
/// that point the machine is finished and attempts nothing more.
pub proof fn lemma_rate_limit_exhaustion(feeds: nat, max_retries: u32)
    ensures
        feeds <= max_retries ==> surviving_retries(feeds, max_retries) == Some(feeds as u32),
        feeds > max_retries ==> surviving_retries(feeds, max_retries) is None,
    decreases feeds,
{
    if feeds > 0 {
        lemma_rate_limit_exhaustion((feeds - 1) as nat, max_retries);
    }
}

} // verus!
