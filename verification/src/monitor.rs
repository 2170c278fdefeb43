//! Sampling pipeline state: one immutable `Sample` per update cycle is
//! folded into four rolling histories (CPU, memory, network receive delta,
//! network transmit delta), with the previous cumulative network totals
//! kept to derive the next per-interval delta.

use crate::history::{pushed, HISTORY_LENGTH, RollingHistory};
use vstd::prelude::*;

verus! {

/// Cumulative byte counters of one network interface, as reported by the
/// operating system at one instant.
pub struct InterfaceCounters {
    /// Interface name, for the per-interface text readout.
    pub name: String,
    /// Total bytes received since the interface's counters started.
    pub received_bytes: u64,
    /// Total bytes transmitted since the interface's counters started.
    pub transmitted_bytes: u64,
}

/// An immutable snapshot of the host's counters taken at one instant.
/// CPU utilization is carried in hundredths of a percent so that the whole
/// snapshot is made of plain integers.
pub struct Sample {
    /// Global CPU utilization, in hundredths of a percent.
    pub cpu_centi_percent: u64,
    /// Used system memory, in MiB.
    pub used_memory_mib: u64,
    /// Total system memory, in MiB.
    pub total_memory_mib: u64,
    /// One entry per active network interface, with cumulative counters.
    pub per_interface_counters: Vec<InterfaceCounters>,
}

/// Sum of the received-byte counters over the first `n` interfaces.
pub open spec fn sum_received_prefix(cs: Seq<InterfaceCounters>, n: int) -> int
    decreases n,
{
    if n <= 0 {
        0
    } else {
        sum_received_prefix(cs, n - 1) + cs[n - 1].received_bytes
    }
}

/// Sum of the received-byte counters over all interfaces of a sample.
pub open spec fn sum_received(cs: Seq<InterfaceCounters>) -> int {
    sum_received_prefix(cs, cs.len() as int)
}

/// Sum of the transmitted-byte counters over the first `n` interfaces.
pub open spec fn sum_transmitted_prefix(cs: Seq<InterfaceCounters>, n: int) -> int
    decreases n,
{
    if n <= 0 {
        0
    } else {
        sum_transmitted_prefix(cs, n - 1) + cs[n - 1].transmitted_bytes
    }
}

/// Sum of the transmitted-byte counters over all interfaces of a sample.
pub open spec fn sum_transmitted(cs: Seq<InterfaceCounters>) -> int {
    sum_transmitted_prefix(cs, cs.len() as int)
}

/// Every prefix sum is non-negative: each counter is an unsigned value.
proof fn lemma_sum_prefix_nonneg(cs: Seq<InterfaceCounters>, n: int)
    ensures
        sum_received_prefix(cs, n) >= 0,
        sum_transmitted_prefix(cs, n) >= 0,
    decreases n,
{
    if n > 0 {
        lemma_sum_prefix_nonneg(cs, n - 1);
    }
}

/// Prefix sums only grow: every prefix sum is bounded by the sum over the
/// whole sequence.
proof fn lemma_sum_prefix_bounds(cs: Seq<InterfaceCounters>, n: int)
    requires
        0 <= n <= cs.len(),
    ensures
        0 <= sum_received_prefix(cs, n) <= sum_received(cs),
        0 <= sum_transmitted_prefix(cs, n) <= sum_transmitted(cs),
    decreases cs.len() - n,
{
    lemma_sum_prefix_nonneg(cs, n);
    if n < cs.len() {
        lemma_sum_prefix_bounds(cs, n + 1);
    }
}

/// Clamped difference of two consecutive cumulative counter readings:
/// `cur - prev` when the counter has not decreased, otherwise `0`
/// (a decrease means the counter was reset, e.g. an interface restart).
pub open spec fn delta_of(prev: u64, cur: u64) -> u64 {
    if cur >= prev {
        (cur - prev) as u64
    } else {
        0u64
    }
}

/// Per-interval activity derived from two consecutive cumulative readings.
pub fn clamped_delta(prev: u64, cur: u64) -> (r: u64)
    ensures
        r == delta_of(prev, cur),
{
    if cur >= prev {
        cur - prev
    } else {
        0
    }
}

/// Non-negative delta: for any pair of consecutive cumulative totals
/// `(prev, cur)` the computed delta equals `cur - prev` when
/// `cur >= prev`, and `0` otherwise — it is never negative.
pub proof fn lemma_delta_nonnegative(prev: u64, cur: u64)
    ensures
        delta_of(prev, cur) >= 0,
        cur >= prev ==> delta_of(prev, cur) == cur - prev,
        cur < prev ==> delta_of(prev, cur) == 0,
{
}

impl Sample {
    /// The machine bound under which a sample's network totals can be
    /// computed: both interface counter sums fit in a `u64`.
    pub open spec fn wf(&self) -> bool {
        &&& sum_received(self.per_interface_counters@) <= u64::MAX
        &&& sum_transmitted(self.per_interface_counters@) <= u64::MAX
    }

    /// Sum of cumulative received bytes over all interfaces.
    pub fn total_received(&self) -> (r: u64)
        requires
            self.wf(),
        ensures
            r == sum_received(self.per_interface_counters@),
    {
        let cs = &self.per_interface_counters;
        let mut total: u64 = 0;
        let mut i: usize = 0;
        while i < cs.len()
            invariant
                0 <= i <= cs.len(),
                sum_received(cs@) <= u64::MAX,
                total == sum_received_prefix(cs@, i as int),
            decreases cs.len() - i,
        {
            proof {
                lemma_sum_prefix_bounds(cs@, i + 1);
            }
            total = total + cs[i].received_bytes;
            i = i + 1;
        }
        total
    }

    /// Sum of cumulative transmitted bytes over all interfaces.
    pub fn total_transmitted(&self) -> (r: u64)
        requires
            self.wf(),
        ensures
            r == sum_transmitted(self.per_interface_counters@),
    {
        let cs = &self.per_interface_counters;
        let mut total: u64 = 0;
        let mut i: usize = 0;
        while i < cs.len()
            invariant
                0 <= i <= cs.len(),
                sum_transmitted(cs@) <= u64::MAX,
                total == sum_transmitted_prefix(cs@, i as int),
            decreases cs.len() - i,
        {
            proof {
                lemma_sum_prefix_bounds(cs@, i + 1);
            }
            total = total + cs[i].transmitted_bytes;
            i = i + 1;
        }
        total
    }
}

/// Owner of the four rolling histories and of the last-seen cumulative
/// network totals. Created once with empty histories and zeroed counters,
/// then mutated exactly once per update cycle by `record`.
pub struct MonitorState {
    cpu_history: RollingHistory,
    mem_history: RollingHistory,
    net_recv_history: RollingHistory,
    net_transmit_history: RollingHistory,
    prev_net_received: u64,
    prev_net_transmitted: u64,
}

impl MonitorState {
    /// Retained CPU samples, oldest first, in hundredths of a percent.
    pub closed spec fn cpu(&self) -> Seq<u64> {
        self.cpu_history@
    }

    /// Retained memory samples, oldest first, in MiB.
    pub closed spec fn mem(&self) -> Seq<u64> {
        self.mem_history@
    }

    /// Retained per-interval received-byte deltas, oldest first.
    pub closed spec fn net_recv(&self) -> Seq<u64> {
        self.net_recv_history@
    }

    /// Retained per-interval transmitted-byte deltas, oldest first.
    pub closed spec fn net_transmit(&self) -> Seq<u64> {
        self.net_transmit_history@
    }

    /// Cumulative received total of the most recently recorded sample.
    pub closed spec fn prev_received(&self) -> u64 {
        self.prev_net_received
    }

    /// Cumulative transmitted total of the most recently recorded sample.
    pub closed spec fn prev_transmitted(&self) -> u64 {
        self.prev_net_transmitted
    }

    /// Capacity invariant: none of the four histories ever exceeds
    /// `HISTORY_LENGTH` values.
    pub open spec fn wf(&self) -> bool {
        &&& self.cpu().len() <= HISTORY_LENGTH
        &&& self.mem().len() <= HISTORY_LENGTH
        &&& self.net_recv().len() <= HISTORY_LENGTH
        &&& self.net_transmit().len() <= HISTORY_LENGTH
    }

    /// A fresh store: all four histories empty, both previous cumulative
    /// totals zero.
    pub fn new() -> (r: Self)
        ensures
            r.wf(),
            r.cpu() == Seq::<u64>::empty(),
            r.mem() == Seq::<u64>::empty(),
            r.net_recv() == Seq::<u64>::empty(),
            r.net_transmit() == Seq::<u64>::empty(),
            r.prev_received() == 0,
            r.prev_transmitted() == 0,
    {
        MonitorState {
            cpu_history: RollingHistory::new(),
            mem_history: RollingHistory::new(),
            net_recv_history: RollingHistory::new(),
            net_transmit_history: RollingHistory::new(),
            prev_net_received: 0,
            prev_net_transmitted: 0,
        }
    }

    /// Folds one sample into the store: appends the CPU and memory
    /// readings, derives the per-interval network deltas against the
    /// previous cumulative totals with the non-negative clamping rule,
    /// unconditionally replaces the previous totals with this sample's
    /// totals, and appends the two deltas — each append evicting the
    /// oldest value when its history is at capacity.
    pub fn record(&mut self, sample: &Sample)
        requires
            old(self).wf(),
            sample.wf(),
        ensures
            final(self).wf(),
            final(self).cpu() == pushed(old(self).cpu(), sample.cpu_centi_percent),
            final(self).mem() == pushed(old(self).mem(), sample.used_memory_mib),
            final(self).prev_received() == sum_received(sample.per_interface_counters@),
            final(self).prev_transmitted() == sum_transmitted(sample.per_interface_counters@),
            final(self).net_recv() == pushed(
                old(self).net_recv(),
                delta_of(
                    old(self).prev_received(),
                    sum_received(sample.per_interface_counters@) as u64,
                ),
            ),
            final(self).net_transmit() == pushed(
                old(self).net_transmit(),
                delta_of(
                    old(self).prev_transmitted(),
                    sum_transmitted(sample.per_interface_counters@) as u64,
                ),
            ),
    {
        self.cpu_history.push(sample.cpu_centi_percent);
        self.mem_history.push(sample.used_memory_mib);

        let total_received = sample.total_received();
        let total_transmitted = sample.total_transmitted();

        let delta_received = clamped_delta(self.prev_net_received, total_received);
        let delta_transmitted = clamped_delta(self.prev_net_transmitted, total_transmitted);

        self.prev_net_received = total_received;
        self.prev_net_transmitted = total_transmitted;

        self.net_recv_history.push(delta_received);
        self.net_transmit_history.push(delta_transmitted);
    }

    /// Read-only view of the CPU history, oldest first.
    pub fn cpu_history(&self) -> (r: &RollingHistory)
        ensures
            r@ == self.cpu(),
    {
        &self.cpu_history
    }

    /// Read-only view of the memory history, oldest first.
    pub fn mem_history(&self) -> (r: &RollingHistory)
        ensures
            r@ == self.mem(),
    {
        &self.mem_history
    }

    /// Read-only view of the received-delta history, oldest first.
    pub fn net_recv_history(&self) -> (r: &RollingHistory)
        ensures
            r@ == self.net_recv(),
    {
        &self.net_recv_history
    }

    /// Read-only view of the transmitted-delta history, oldest first.
    pub fn net_transmit_history(&self) -> (r: &RollingHistory)
        ensures
            r@ == self.net_transmit(),
    {
        &self.net_transmit_history
    }

    /// Cumulative received total the next delta will be computed against.
    pub fn prev_received_total(&self) -> (r: u64)
        ensures
            r == self.prev_received(),
    {
        self.prev_net_received
    }

    /// Cumulative transmitted total the next delta will be computed against.
    pub fn prev_transmitted_total(&self) -> (r: u64)
        ensures
            r == self.prev_transmitted(),
    {
        self.prev_net_transmitted
    }
}

} // verus!
