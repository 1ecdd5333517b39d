//! One point-in-time view of the system: assembled from raw readings and
//! rendered as lines of text.
use vstd::prelude::*;
use crate::disk::{aggregate_disks, sum_total, sum_used, DiskUsage, VolumeSpace};
use crate::process::{is_top_selection, top_by_memory, ProcessInfo};
use crate::render::{disk_line, disk_line_text, memory_line, memory_line_text, progress_line, progress_line_text};
use crate::text::{decimal_string, decimal_text};

verus! {

/// Sum of per-core usage figures.
pub open spec fn sum_cores(cores: Seq<u64>) -> nat
    decreases cores.len(),
{
    if cores.len() == 0 {
        0
    } else {
        sum_cores(cores.drop_last()) + cores.last() as nat
    }
}

/// Summed CPU usage, saturated at the largest `u64`.
pub open spec fn cpu_total(cores: Seq<u64>) -> nat {
    if sum_cores(cores) > u64::MAX { u64::MAX as nat } else { sum_cores(cores) }
}

/// Adds up the usage of all cores (each a percentage in hundredths); the
/// result is not averaged, so it exceeds 100% on several busy cores.
pub fn total_cpu_hundredths(per_core: &Vec<u64>) -> (r: u64)
    ensures
        r == cpu_total(per_core@),
{
    let mut sum: u64 = 0;
    let mut i: usize = 0;
    while i < per_core.len()
        invariant
            i <= per_core@.len(),
            sum == cpu_total(per_core@.subrange(0, i as int)),
        decreases per_core@.len() - i,
    {
        assert(per_core@.subrange(0, i + 1).drop_last() =~= per_core@.subrange(0, i as int));
        let c = per_core[i];
        if sum > u64::MAX - c {
            sum = u64::MAX;
        } else {
            sum = sum + c;
        }
        i = i + 1;
    }
    assert(per_core@.subrange(0, i as int) =~= per_core@);
    sum
}

/// A snapshot of CPU, memory, disk and the largest processes.
pub struct SystemSnapshot {
    /// Summed usage of all cores, in hundredths of a percent.
    pub cpu_hundredths: u64,
    pub total_memory_kb: u64,
    pub used_memory_kb: u64,
    pub disk: DiskUsage,
    /// The largest memory consumers, in ascending order of memory.
    pub top_processes: Vec<ProcessInfo>,
}

impl SystemSnapshot {
    pub open spec fn wf(&self) -> bool {
        self.disk.used <= self.disk.total
    }
}

/// Assembles a snapshot from raw readings; `None` when the volumes' total
/// space does not fit in 64 bits.
pub fn build_snapshot(
    per_core: &Vec<u64>,
    total_memory_kb: u64,
    used_memory_kb: u64,
    volumes: &Vec<VolumeSpace>,
    processes: &Vec<ProcessInfo>,
) -> (r: Option<SystemSnapshot>)
    ensures
        r is Some <==> sum_total(volumes@) <= u64::MAX,
        r matches Some(s) ==> {
            &&& s.wf()
            &&& s.cpu_hundredths == cpu_total(per_core@)
            &&& s.total_memory_kb == total_memory_kb
            &&& s.used_memory_kb == used_memory_kb
            &&& s.disk.total == sum_total(volumes@)
            &&& s.disk.used == sum_used(volumes@)
            &&& is_top_selection(processes@, s.top_processes@)
        },
{
    match aggregate_disks(volumes) {
        None => None,
        Some(disk) => Some(
            SystemSnapshot {
                cpu_hundredths: total_cpu_hundredths(per_core),
                total_memory_kb,
                used_memory_kb,
                disk,
                top_processes: top_by_memory(processes),
            },
        ),
    }
}

/// `PID: pid | name | Memory: m KB`.
pub open spec fn process_line_text(p: ProcessInfo) -> Seq<char> {
    "PID: "@ + decimal_text(p.pid as nat) + " | "@ + p.name@ + " | Memory: "@ + decimal_text(
        p.memory_kb as nat,
    ) + " KB"@
}

/// Renders one process of the list.
pub fn process_line(p: &ProcessInfo) -> (r: String)
    ensures
        r@ == process_line_text(*p),
{
    proof {
        reveal_strlit("PID: ");
        reveal_strlit(" | ");
        reveal_strlit(" | Memory: ");
        reveal_strlit(" KB");
    }
    let mut s = String::from_str("PID: ");
    let pid = decimal_string(p.pid);
    s.append(pid.as_str());
    s.append(" | ");
    s.append(p.name.as_str());
    s.append(" | Memory: ");
    let mem = decimal_string(p.memory_kb);
    s.append(mem.as_str());
    s.append(" KB");
    assert(s@ =~= process_line_text(*p));
    s
}

/// The lines that show a snapshot: CPU bar, memory, disk bar, a blank line,
/// the process header and one line per listed process.
pub open spec fn snapshot_lines(s: SystemSnapshot) -> Seq<Seq<char>> {
    seq![
        progress_line_text("CPU Usage"@, s.cpu_hundredths as nat),
        memory_line_text(s.used_memory_kb as nat, s.total_memory_kb as nat),
        disk_line_text(s.disk),
        Seq::empty(),
        "Top 3 Memory Consuming Processes:"@,
    ] + s.top_processes@.map_values(|p: ProcessInfo| process_line_text(p))
}

/// Renders a snapshot line by line.
pub fn render_snapshot(s: &SystemSnapshot) -> (r: Vec<String>)
    requires
        s.wf(),
    ensures
        r@.map_values(|l: String| l@) == snapshot_lines(*s),
{
    let mut lines: Vec<String> = Vec::new();
    lines.push(progress_line("CPU Usage", s.cpu_hundredths));
    lines.push(memory_line(s.used_memory_kb, s.total_memory_kb));
    lines.push(disk_line(&s.disk));
    lines.push(String::new());
    lines.push(String::from_str("Top 3 Memory Consuming Processes:"));
    let mut i: usize = 0;
    while i < s.top_processes.len()
        invariant
            i <= s.top_processes@.len(),
            lines@.len() == 5 + i,
            lines@[0]@ == progress_line_text("CPU Usage"@, s.cpu_hundredths as nat),
            lines@[1]@ == memory_line_text(s.used_memory_kb as nat, s.total_memory_kb as nat),
            lines@[2]@ == disk_line_text(s.disk),
            lines@[3]@ == Seq::<char>::empty(),
            lines@[4]@ == "Top 3 Memory Consuming Processes:"@,
            forall|t: int|
                0 <= t < i ==> #[trigger] lines@[5 + t]@ == process_line_text(s.top_processes@[t]),
        decreases s.top_processes@.len() - i,
    {
        let line = process_line(&s.top_processes[i]);
        lines.push(line);
        i = i + 1;
    }
    assert(lines@.map_values(|l: String| l@) =~= snapshot_lines(*s)) by {
        assert forall|t: int| 5 <= t < lines@.len() implies lines@[t]@ == process_line_text(
            s.top_processes@[t - 5],
        ) by {
            assert(lines@[5 + (t - 5)]@ == process_line_text(s.top_processes@[t - 5]));
        }
    }
    lines
}

} // verus!
