//! Query-orchestration core of a passive port-discovery tool.
//!
//! Input tokens (hostnames or IP literals) are resolved to addresses,
//! each address is queried against a host-intelligence service under a
//! rate-control policy with bounded retry on throttling, and the
//! per-host outcomes are folded into one deterministic result set.
//! All network and file traffic stays outside this crate; the logic
//! here works on plain values and is verified.

pub mod agents;
pub mod aggregate;
pub mod lookup;
pub mod output;
pub mod rate;
pub mod resolver;
pub mod text;
