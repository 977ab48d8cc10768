//! Derivation of display quantities from two successive snapshots of a VM.
use vstd::prelude::*;
use crate::vms::VmMetrics;

verus! {

/// Kibibytes per mebibyte: memory counters come in KiB and show in MiB.
pub const KIB_PER_MIB: u128 = 1024;

/// One row of the VM list, derived from a pair of snapshots.
///
/// `cpu_centi` is the CPU use in hundredths of a percent, so 10000 stands for
/// 100.00%.
pub struct DerivedRow {
    pub id: u32,
    pub name: String,
    pub cpu_centi: u128,
    pub mem_mb: u128,
    pub running: bool,
}

/// `a / b` rounded to the nearest integer, halves rounded up.
pub open spec fn round_div(a: nat, b: nat) -> nat
    recommends
        b > 0,
{
    (2 * a + b) / (2 * b)
}

/// How far a cumulative counter went up; zero where it went back (a reset).
pub open spec fn saturating_delta(prev: u64, cur: u64) -> nat {
    if cur >= prev {
        (cur - prev) as nat
    } else {
        0
    }
}

/// CPU use in hundredths of a percent over `elapsed` nanoseconds of wall
/// time: the CPU nanoseconds spent, per nanosecond elapsed, times 100,
/// rounded to two decimals. Zero when no time elapsed.
pub open spec fn cpu_centi_of(prev_cpu: u64, cur_cpu: u64, elapsed: int) -> nat {
    if elapsed <= 0 {
        0
    } else {
        round_div(saturating_delta(prev_cpu, cur_cpu) * 10000, elapsed as nat)
    }
}

/// CPU use of `cur` relative to the snapshot before it, if there was one.
pub open spec fn cpu_centi(prev: Option<VmMetrics>, cur: VmMetrics) -> nat {
    match prev {
        None => 0,
        Some(p) => cpu_centi_of(p.cpu_time, cur.cpu_time, cur.timestamp - p.timestamp),
    }
}

/// Resident plus cached memory of a snapshot, in MiB.
pub open spec fn mem_mb(cur: VmMetrics) -> nat {
    ((cur.mem_rss + cur.mem_cache) / (KIB_PER_MIB as int)) as nat
}

/// `r` is the row derived from `cur` and the snapshot `prev` before it.
pub open spec fn derived_from(prev: Option<VmMetrics>, cur: VmMetrics, r: DerivedRow) -> bool {
    &&& r.id == cur.id
    &&& r.name@ == cur.name@
    &&& r.cpu_centi == cpu_centi(prev, cur)
    &&& r.mem_mb == mem_mb(cur)
    &&& r.running == cur.status
}

/// CPU use in hundredths of a percent between two readings of the
/// cumulative CPU time, taken at the monotonic instants `prev_at` and
/// `cur_at` (nanoseconds).
pub fn cpu_percent_centi(prev_cpu: u64, cur_cpu: u64, prev_at: u64, cur_at: u64) -> (r: u128)
    ensures
        r == cpu_centi_of(prev_cpu, cur_cpu, cur_at - prev_at),
        cur_cpu < prev_cpu ==> r == 0,
        cur_at <= prev_at ==> r == 0,
{
    if cur_at <= prev_at {
        return 0;
    }
    let elapsed: u128 = (cur_at - prev_at) as u128;
    let delta: u128 = cur_cpu.saturating_sub(prev_cpu) as u128;
    proof {
        assert(delta * 20000 <= 0xffff_ffff_ffff_ffffu128 * 20000) by (nonlinear_arith)
            requires delta <= 0xffff_ffff_ffff_ffffu128;
    }
    let r = (delta * 20000 + elapsed) / (2 * elapsed);
    proof {
        assert(2 * (delta * 10000) == delta * 20000);
        if cur_cpu < prev_cpu {
            assert((elapsed as int) / (2 * (elapsed as int)) == 0) by (nonlinear_arith)
                requires elapsed > 0;
        }
    }
    r
}

/// Derives the row of `current`, given the snapshot of the same VM from the
/// tick before, if there was one.
///
/// Memory is a level and shows as the current total; CPU is a rate and is
/// zero on a first sight, on a counter reset and when no time has elapsed.
pub fn derive_row(previous: Option<&VmMetrics>, current: &VmMetrics) -> (r: DerivedRow)
    ensures
        derived_from(
            match previous {
                Some(p) => Some(*p),
                None => None,
            },
            *current,
            r,
        ),
        previous is None ==> r.cpu_centi == 0,
        previous matches Some(p) && current.cpu_time < p.cpu_time ==> r.cpu_centi == 0,
        previous matches Some(p) && current.timestamp <= p.timestamp ==> r.cpu_centi == 0,
{
    let cpu_centi = match previous {
        None => 0,
        Some(p) => cpu_percent_centi(p.cpu_time, current.cpu_time, p.timestamp, current.timestamp),
    };
    let mem_mb = (current.mem_rss as u128 + current.mem_cache as u128) / KIB_PER_MIB;
    DerivedRow {
        id: current.id,
        name: current.name.clone(),
        cpu_centi,
        mem_mb,
        running: current.status,
    }
}

} // verus!
