//! Aggregation of per-volume disk space into totals and a usage percentage.
use vstd::prelude::*;

verus! {

/// Space figures of one mounted volume, in bytes.
#[derive(Clone, Copy, Debug, PartialEq, Eq, Structural)]
pub struct VolumeSpace {
    pub total: u64,
    pub available: u64,
}

/// Disk space summed over all volumes, in bytes.
#[derive(Clone, Copy, Debug, PartialEq, Eq, Structural)]
pub struct DiskUsage {
    pub total: u64,
    pub used: u64,
}

/// Bytes in use on one volume; a volume that reports more available space
/// than it holds counts as empty.
pub open spec fn volume_used(v: VolumeSpace) -> nat {
    if v.available > v.total {
        0
    } else {
        (v.total - v.available) as nat
    }
}

/// Sum of the volumes' total space.
pub open spec fn sum_total(vs: Seq<VolumeSpace>) -> nat
    decreases vs.len(),
{
    if vs.len() == 0 {
        0
    } else {
        sum_total(vs.drop_last()) + vs.last().total as nat
    }
}

/// Sum of the volumes' used space.
pub open spec fn sum_used(vs: Seq<VolumeSpace>) -> nat
    decreases vs.len(),
{
    if vs.len() == 0 {
        0
    } else {
        (sum_used(vs.drop_last()) + volume_used(vs.last())) as nat
    }
}

/// Aggregated used space never exceeds aggregated total space, whatever
/// the individual volumes report.
pub proof fn lemma_used_within_total(vs: Seq<VolumeSpace>)
    ensures
        sum_used(vs) <= sum_total(vs),
    decreases vs.len(),
{
    if vs.len() > 0 {
        lemma_used_within_total(vs.drop_last());
    }
}

impl VolumeSpace {
    /// Bytes in use on this volume, clamped at zero.
    pub fn used(&self) -> (r: u64)
        ensures
            r == volume_used(*self),
    {
        if self.available > self.total {
            0
        } else {
            self.total - self.available
        }
    }
}

/// Sums total and used space over `volumes`; `None` when the total does not
/// fit in 64 bits.
pub fn aggregate_disks(volumes: &Vec<VolumeSpace>) -> (r: Option<DiskUsage>)
    ensures
        r is Some <==> sum_total(volumes@) <= u64::MAX,
        r matches Some(u) ==> u.total == sum_total(volumes@) && u.used == sum_used(volumes@),
        r matches Some(u) ==> u.used <= u.total,
{
    let mut total: u64 = 0;
    let mut used: u64 = 0;
    let mut i: usize = 0;
    while i < volumes.len()
        invariant
            i <= volumes@.len(),
            total == sum_total(volumes@.subrange(0, i as int)),
            used == sum_used(volumes@.subrange(0, i as int)),
        decreases volumes@.len() - i,
    {
        let v = volumes[i];
        proof {
            assert(volumes@.subrange(0, i + 1).drop_last() =~= volumes@.subrange(0, i as int));
            lemma_used_within_total(volumes@.subrange(0, i + 1));
            lemma_sum_total_grows(volumes@, i + 1);
        }
        if total > u64::MAX - v.total {
            return None;
        }
        total = total + v.total;
        used = used + v.used();
        i = i + 1;
    }
    proof {
        assert(volumes@.subrange(0, i as int) =~= volumes@);
        lemma_used_within_total(volumes@);
    }
    Some(DiskUsage { total, used })
}

proof fn lemma_sum_total_grows(vs: Seq<VolumeSpace>, k: int)
    requires
        0 <= k <= vs.len(),
    ensures
        sum_total(vs.subrange(0, k)) <= sum_total(vs),
    decreases vs.len() - k,
{
    if k < vs.len() {
        lemma_sum_total_grows(vs, k + 1);
        assert(vs.subrange(0, k + 1).drop_last() =~= vs.subrange(0, k));
    } else {
        assert(vs.subrange(0, k) =~= vs);
    }
}

/// Used share of the total in hundredths of a percent, rounded half up.
pub open spec fn usage_hundredths(used: nat, total: nat) -> nat
    recommends
        total > 0,
{
    (20000 * used + total) / (2 * total)
}

impl DiskUsage {
    /// The used share as a percentage in hundredths; `None` when the total
    /// is zero, where no share is defined.
    pub fn percent_hundredths(&self) -> (r: Option<u64>)
        requires
            self.used <= self.total,
        ensures
            self.total == 0 <==> r is None,
            r matches Some(p) ==> p == usage_hundredths(self.used as nat, self.total as nat),
            r matches Some(p) ==> p <= 10000,
    {
        if self.total == 0 {
            None
        } else {
            let used = self.used as u128;
            let total = self.total as u128;
            assert(20000 * used + total <= 20001 * total) by (nonlinear_arith)
                requires used <= total;
            let p = (20000 * used + total) / (2 * total);
            assert(p <= 10000) by (nonlinear_arith)
                requires p == (20000 * used + total) / (2 * total), used <= total, total > 0;
            Some(p as u64)
        }
    }
}

} // verus!
