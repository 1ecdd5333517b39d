//! Process records and the choice of the largest memory consumers.
use vstd::prelude::*;
use vstd::multiset::Multiset;

verus! {

/// Number of processes a snapshot shows.
pub const TOP_COUNT: usize = 3;

/// One entry of the process table.
#[derive(Debug)]
pub struct ProcessInfo {
    pub pid: u64,
    pub name: String,
    pub memory_kb: u64,
}

/// Memory of every entry of `s` is at most `m`.
pub open spec fn all_at_most(s: Seq<ProcessInfo>, m: u64) -> bool {
    forall|i: int| 0 <= i < s.len() ==> s[i].memory_kb <= m
}

/// Entries of `s` in ascending order of memory.
pub open spec fn ascending_by_memory(s: Seq<ProcessInfo>) -> bool {
    forall|i: int, j: int| 0 <= i < j < s.len() ==> s[i].memory_kb <= s[j].memory_kb
}

/// `sel` is a choice of `min(3, n)` of the `n` entries of `input`, none of
/// which uses less memory than an entry left out, listed in ascending order
/// of memory.
pub open spec fn is_top_selection(input: Seq<ProcessInfo>, sel: Seq<ProcessInfo>) -> bool {
    &&& sel.len() == if input.len() < 3 { input.len() } else { 3 }
    &&& sel.to_multiset().subset_of(input.to_multiset())
    &&& ascending_by_memory(sel)
    &&& forall|x: ProcessInfo, i: int|
        #![trigger input.to_multiset().sub(sel.to_multiset()).contains(x), sel[i]]
        input.to_multiset().sub(sel.to_multiset()).contains(x) && 0 <= i < sel.len()
            ==> x.memory_kb <= sel[i].memory_kb
}

fn copy_process(p: &ProcessInfo) -> (r: ProcessInfo)
    ensures
        r == *p,
{
    ProcessInfo { pid: p.pid, name: p.name.clone(), memory_kb: p.memory_kb }
}

/// Index of the last entry with the largest memory.
fn index_of_max(s: &Vec<ProcessInfo>) -> (r: usize)
    requires
        s@.len() > 0,
    ensures
        r < s@.len(),
        all_at_most(s@, s@[r as int].memory_kb),
{
    let mut best: usize = 0;
    let mut i: usize = 1;
    while i < s.len()
        invariant
            0 < i <= s@.len(),
            best < i,
            all_at_most(s@.subrange(0, i as int), s@[best as int].memory_kb),
        decreases s@.len() - i,
    {
        if s[i].memory_kb >= s[best].memory_kb {
            best = i;
        }
        i = i + 1;
    }
    assert(s@.subrange(0, i as int) =~= s@);
    best
}

/// The three processes that use the most memory (all of them when there are
/// fewer), in ascending order of memory. Among equal memory, later entries
/// are preferred and kept in their order.
pub fn top_by_memory(processes: &Vec<ProcessInfo>) -> (r: Vec<ProcessInfo>)
    ensures
        is_top_selection(processes@, r@),
{
    broadcast use vstd::seq_lib::group_to_multiset_ensures;
    broadcast use vstd::multiset::group_multiset_axioms;

    let n = processes.len();
    let mut rest: Vec<ProcessInfo> = Vec::new();
    let mut i: usize = 0;
    while i < n
        invariant
            n == processes@.len(),
            i <= n,
            rest@ == processes@.subrange(0, i as int),
        decreases n - i,
    {
        let p = copy_process(&processes[i]);
        rest.push(p);
        assert(rest@ =~= processes@.subrange(0, i + 1));
        i = i + 1;
    }
    assert(rest@ =~= processes@);
    let k: usize = if n < TOP_COUNT { n } else { TOP_COUNT };
    let mut picked: Vec<ProcessInfo> = Vec::new();
    assert(picked@.to_multiset() =~= Multiset::empty());
    assert(rest@.to_multiset().add(picked@.to_multiset()) =~= processes@.to_multiset());
    while picked.len() < k
        invariant
            k <= n,
            n == processes@.len(),
            picked@.len() <= k,
            rest@.len() + picked@.len() == n,
            rest@.to_multiset().add(picked@.to_multiset()) == processes@.to_multiset(),
            forall|a: int, b: int|
                0 <= a < b < picked@.len() ==> picked@[a].memory_kb >= picked@[b].memory_kb,
            forall|a: int, b: int|
                0 <= a < picked@.len() && 0 <= b < rest@.len() ==> picked@[a].memory_kb
                    >= rest@[b].memory_kb,
        decreases k - picked@.len(),
    {
        let j = index_of_max(&rest);
        let ghost before = rest@;
        let p = rest.remove(j);
        proof {
            vstd::seq_lib::to_multiset_remove(before, j as int);
            assert(before[j as int] == p);
            assert(before.contains(p));
            vstd::seq_lib::to_multiset_contains(before, p);
            assert forall|b: int| 0 <= b < rest@.len() implies p.memory_kb >= rest@[b].memory_kb by {
                if b < j {
                    assert(rest@[b] == before[b]);
                } else {
                    assert(rest@[b] == before[b + 1]);
                }
            }
        }
        let ghost picked_before = picked@;
        picked.push(p);
        proof {
            vstd::seq_lib::to_multiset_build(picked_before, p);
            assert(picked@ == picked_before.push(p));
            assert(rest@.to_multiset().add(picked@.to_multiset()) =~= processes@.to_multiset());
            assert forall|a: int, b: int|
                0 <= a < picked@.len() && 0 <= b < rest@.len() implies picked@[a].memory_kb
                >= rest@[b].memory_kb by {
                if a < picked_before.len() {
                    if b < j {
                        assert(rest@[b] == before[b]);
                    } else {
                        assert(rest@[b] == before[b + 1]);
                    }
                }
            }
            assert forall|a: int, b: int|
                0 <= a < b < picked@.len() implies picked@[a].memory_kb >= picked@[b].memory_kb by {
                if b == picked_before.len() {
                    assert(before[j as int] == p);
                    assert(picked_before[a].memory_kb >= before[j as int].memory_kb);
                }
            }
        }
    }
    let ghost chosen = picked@;
    let mut result: Vec<ProcessInfo> = Vec::new();
    while picked.len() > 0
        invariant
            chosen.len() == k,
            picked@.len() + result@.len() == k,
            picked@ == chosen.subrange(0, picked@.len() as int),
            forall|t: int| 0 <= t < result@.len() ==> result@[t] == chosen[k - 1 - t],
        decreases picked@.len(),
    {
        let p = picked.pop().unwrap();
        result.push(p);
    }
    proof {
        assert(result@ =~= chosen.reverse());
        chosen.lemma_reverse_to_multiset();
        assert(processes@.to_multiset().sub(result@.to_multiset()) =~= rest@.to_multiset());
        assert forall|x: ProcessInfo, t: int|
            #![trigger processes@.to_multiset().sub(result@.to_multiset()).contains(x), result@[t]]
            processes@.to_multiset().sub(result@.to_multiset()).contains(x) && 0 <= t
                < result@.len() implies x.memory_kb <= result@[t].memory_kb by {
            assert(rest@.to_multiset().count(x) > 0);
            let b = choose|b: int| 0 <= b < rest@.len() && rest@[b] == x;
            assert(result@[t] == chosen[k - 1 - t]);
        }
    }
    result
}

} // verus!
