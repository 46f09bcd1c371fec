//! Rate control: how many queries may be in flight, and how fast they
//! may be issued.
//!
//! Two policies. Bounded-parallel keeps a counting gate of fixed
//! capacity; every query holds one permit while its request is in
//! flight. Throttled-sequential issues one query at a time and sleeps
//! a short jittered delay before each one.

use rand::Rng;
use vstd::prelude::*;

verus! {

/// Target sustained throughput, modelled as one query per this many
/// input tokens over a sixty-second window (0.6 queries/second).
pub const TOKENS_PER_PERMIT: u64 = 100;

/// Lower jitter bound for the throttled-sequential policy, inclusive.
pub const JITTER_MIN_MS: u64 = 1;

/// Upper jitter bound for the throttled-sequential policy, exclusive.
pub const JITTER_MAX_MS: u64 = 3;

/// Concurrency auto-computed from the input size: one permit per
/// hundred tokens, rounded up, but never below the configured floor.
pub open spec fn auto_concurrency(input_size: u64, floor: u64) -> int {
    let target = (input_size + TOKENS_PER_PERMIT - 1) as int / TOKENS_PER_PERMIT as int;
    if target < floor { floor as int } else { target }
}

/// A value clamped to the configured band.
pub open spec fn clamped(v: int, floor: u64, ceiling: u64) -> int {
    if v < floor {
        floor as int
    } else if v > ceiling {
        ceiling as int
    } else {
        v
    }
}

/// The concurrency the run will use: the operator's value if one was
/// given, else the auto-computed one, in either case clamped.
pub open spec fn effective_concurrency_spec(
    requested: Option<u64>,
    input_size: u64,
    floor: u64,
    ceiling: u64,
) -> int {
    match requested {
        Some(v) => clamped(v as int, floor, ceiling),
        None => clamped(auto_concurrency(input_size, floor), floor, ceiling),
    }
}

/// Effective concurrency for a run, plus whether the operator's value
/// had to be clamped (a non-fatal warning is owed to them then).
///
/// The result always lies in `[floor, ceiling]`, whatever the operator
/// supplied — zero and huge values included.
pub fn effective_concurrency(
    requested: Option<u64>,
    input_size: u64,
    floor: u64,
    ceiling: u64,
) -> (r: (u64, bool))
    requires
        floor <= ceiling,
    ensures
        r.0 == effective_concurrency_spec(requested, input_size, floor, ceiling),
        floor <= r.0 <= ceiling,
        r.1 == (match requested {
            Some(v) => v < floor || v > ceiling,
            None => false,
        }),
{
    match requested {
        Some(v) => {
            if v < floor {
                (floor, true)
            } else if v > ceiling {
                (ceiling, true)
            } else {
                (v, false)
            }
        },
        None => {
            let quotient = input_size / TOKENS_PER_PERMIT;
            let target = if input_size % TOKENS_PER_PERMIT == 0 {
                quotient
            } else {
                quotient + 1
            };
            assert(target == (input_size + TOKENS_PER_PERMIT - 1) as int / TOKENS_PER_PERMIT as int);
            let base = if target < floor {
                floor
            } else {
                target
            };
            if base > ceiling {
                (ceiling, false)
            } else {
                (base, false)
            }
        },
    }
}

/// The counting gate of the bounded-parallel policy. Every query
/// acquires one permit before its request is issued and releases it
/// afterwards, on success and on failure alike.
pub struct PermitGate {
    capacity: u64,
    in_flight: u64,
}

impl PermitGate {
    /// Capacity of this gate.
    pub closed spec fn capacity(&self) -> u64 {
        self.capacity
    }

    /// How many permits are currently held.
    pub closed spec fn in_flight(&self) -> u64 {
        self.in_flight
    }

    /// Well-formedness: at most `capacity` permits are out at once.
    pub closed spec fn wf(&self) -> bool {
        self.in_flight <= self.capacity
    }

    pub fn new(capacity: u64) -> (gate: PermitGate)
        ensures
            gate.wf(),
            gate.capacity() == capacity,
            gate.in_flight() == 0,
    {
        PermitGate { capacity, in_flight: 0 }
    }

    /// Take one permit if one is free. The capacity never changes:
    /// the bound is never auto-increased mid-run.
    pub fn try_acquire(&mut self) -> (granted: bool)
        requires
            old(self).wf(),
        ensures
            final(self).wf(),
            final(self).capacity() == old(self).capacity(),
            granted ==> old(self).in_flight() < old(self).capacity()
                && final(self).in_flight() == old(self).in_flight() + 1,
            !granted ==> old(self).in_flight() == old(self).capacity()
                && final(self).in_flight() == old(self).in_flight(),
    {
        if self.in_flight < self.capacity {
            self.in_flight = self.in_flight + 1;
            true
        } else {
            false
        }
    }

    /// Give one permit back; callers do so on every exit path.
    pub fn release(&mut self)
        requires
            old(self).wf(),
            old(self).in_flight() > 0,
        ensures
            final(self).wf(),
            final(self).capacity() == old(self).capacity(),
            final(self).in_flight() == old(self).in_flight() - 1,
    {
        self.in_flight = self.in_flight - 1;
    }
}

/// The in-flight count of a well-formed gate is bounded by its
/// capacity: the configured bound is never structurally exceeded.
pub proof fn lemma_gate_bounded(gate: &PermitGate)
    requires
        gate.wf(),
    ensures
        gate.in_flight() <= gate.capacity(),
{
}

/// Relies on `rand::Rng::gen_range` (rand 0.8): returns a value drawn
/// from `[low, high)`; it panics only when the range is empty, which
/// `low < high` rules out.
#[verifier::external_body]
fn sample_uniform_ms(low: u64, high: u64) -> (r: u64)
    requires
        low < high,
    ensures
        low <= r < high,
{
    rand::thread_rng().gen_range(low..high)
}

/// Delay to sleep before one query under the throttled-sequential
/// policy: a jitter of one or two milliseconds, self-limiting the run
/// to roughly one request every two milliseconds on average.
pub fn throttle_delay_ms() -> (r: u64)
    ensures
        JITTER_MIN_MS <= r < JITTER_MAX_MS,
{
    sample_uniform_ms(JITTER_MIN_MS, JITTER_MAX_MS)
}

} // verus!
