use sysmon::disk::{aggregate_disks, DiskUsage, VolumeSpace};
use sysmon::process::{top_by_memory, ProcessInfo};
use sysmon::render::{disk_line, entry_line, filled_segments, memory_line, progress_bar, progress_line};
use sysmon::snapshot::{build_snapshot, process_line, render_snapshot, total_cpu_hundredths};
use sysmon::text::{decimal_string, hundredths_string};

fn proc_info(pid: u64, name: &str, memory_kb: u64) -> ProcessInfo {
    ProcessInfo { pid, name: String::from(name), memory_kb }
}

fn summary(v: &[ProcessInfo]) -> Vec<(u64, String, u64)> {
    v.iter().map(|p| (p.pid, p.name.clone(), p.memory_kb)).collect()
}

#[test]
fn volumes_aggregate_with_clamped_volume() {
    let vols = vec![
        VolumeSpace { total: 1000, available: 200 },
        VolumeSpace { total: 500, available: 600 },
    ];
    let u = aggregate_disks(&vols).unwrap();
    assert_eq!(u, DiskUsage { total: 1500, used: 800 });
    assert_eq!(u.percent_hundredths(), Some(5333));
    assert_eq!(
        disk_line(&u),
        format!("Disk Usage: [{}{}] 53.33%", "=".repeat(26), " ".repeat(24))
    );
}

#[test]
fn used_never_exceeds_total() {
    let vols = vec![
        VolumeSpace { total: 0, available: 10 },
        VolumeSpace { total: 7, available: 7 },
        VolumeSpace { total: 9, available: 100 },
        VolumeSpace { total: 40, available: 1 },
    ];
    let u = aggregate_disks(&vols).unwrap();
    assert_eq!(u.total, 56);
    assert_eq!(u.used, 39);
    assert!(u.used <= u.total);
}

#[test]
fn volume_used_clamps_to_zero() {
    assert_eq!(VolumeSpace { total: 500, available: 600 }.used(), 0);
    assert_eq!(VolumeSpace { total: 500, available: 100 }.used(), 400);
}

#[test]
fn no_volumes_gives_no_percentage() {
    let u = aggregate_disks(&Vec::new()).unwrap();
    assert_eq!(u, DiskUsage { total: 0, used: 0 });
    assert_eq!(u.percent_hundredths(), None);
    assert_eq!(disk_line(&u), "Disk Usage: N/A");
}

#[test]
fn disk_total_overflow_is_reported() {
    let vols = vec![
        VolumeSpace { total: u64::MAX, available: 0 },
        VolumeSpace { total: 1, available: 0 },
    ];
    assert_eq!(aggregate_disks(&vols), None);
}

#[test]
fn full_disk_is_one_hundred_percent() {
    let u = DiskUsage { total: u64::MAX, used: u64::MAX };
    assert_eq!(u.percent_hundredths(), Some(10000));
}

#[test]
fn percentage_rounds_half_up() {
    assert_eq!(DiskUsage { total: 3, used: 2 }.percent_hundredths(), Some(6667));
    assert_eq!(DiskUsage { total: 20000, used: 1 }.percent_hundredths(), Some(1));
}

#[test]
fn filled_segments_follow_percentage() {
    assert_eq!(filled_segments(0), 0);
    assert_eq!(filled_segments(199), 0);
    assert_eq!(filled_segments(200), 1);
    assert_eq!(filled_segments(5333), 26);
    assert_eq!(filled_segments(10000), 50);
    assert_eq!(filled_segments(25000), 50);
    assert_eq!(filled_segments(u64::MAX), 50);
}

#[test]
fn bar_is_always_fifty_characters() {
    for h in [0u64, 1, 250, 5000, 9999, 10000, 10001, 40000, u64::MAX] {
        let bar = progress_bar(h);
        assert_eq!(bar.chars().count(), 50);
        let filled = filled_segments(h) as usize;
        assert_eq!(bar, "=".repeat(filled) + &" ".repeat(50 - filled));
    }
}

#[test]
fn progress_line_shows_two_decimals() {
    assert_eq!(
        progress_line("CPU Usage", 12345),
        format!("CPU Usage: [{}] 123.45%", "=".repeat(50))
    );
    assert_eq!(
        progress_line("CPU Usage", 5),
        format!("CPU Usage: [{}] 0.05%", " ".repeat(50))
    );
}

#[test]
fn numbers_render_in_decimal() {
    assert_eq!(decimal_string(0), "0");
    assert_eq!(decimal_string(1234567890), "1234567890");
    assert_eq!(decimal_string(u64::MAX), u64::MAX.to_string());
    assert_eq!(hundredths_string(5333), "53.33");
    assert_eq!(hundredths_string(7), "0.07");
    assert_eq!(hundredths_string(100), "1.00");
}

#[test]
fn memory_line_shows_used_and_total() {
    assert_eq!(memory_line(2048, 8192), "Memory Usage: 2048/8192 KB");
}

#[test]
fn directory_entries_are_marked() {
    assert_eq!(entry_line(true, "/home/u/src"), "[DIR]  /home/u/src");
    assert_eq!(entry_line(false, "/home/u/a.txt"), "[FILE] /home/u/a.txt");
}

#[test]
fn top_three_scenario() {
    let ps = vec![
        proc_info(1, "a", 50),
        proc_info(2, "b", 200),
        proc_info(3, "c", 10),
        proc_info(4, "d", 300),
    ];
    let top = top_by_memory(&ps);
    assert_eq!(
        summary(&top),
        vec![
            (1, String::from("a"), 50),
            (2, String::from("b"), 200),
            (4, String::from("d"), 300)
        ]
    );
}

#[test]
fn top_selection_of_fewer_than_three() {
    assert!(top_by_memory(&Vec::new()).is_empty());
    let ps = vec![proc_info(9, "x", 70), proc_info(8, "y", 30)];
    let top = top_by_memory(&ps);
    assert_eq!(summary(&top), vec![(8, String::from("y"), 30), (9, String::from("x"), 70)]);
}

#[test]
fn top_selection_dominates_the_rest() {
    let mems = [5u64, 90, 12, 90, 3, 44, 61, 8, 61, 0];
    let ps: Vec<ProcessInfo> =
        mems.iter().enumerate().map(|(i, m)| proc_info(i as u64, "p", *m)).collect();
    let top = top_by_memory(&ps);
    assert_eq!(top.len(), 3);
    let chosen: Vec<u64> = top.iter().map(|p| p.memory_kb).collect();
    assert_eq!(chosen, vec![61, 90, 90]);
    let pids: Vec<u64> = top.iter().map(|p| p.pid).collect();
    assert_eq!(pids, vec![8, 1, 3]);
}

#[test]
fn cpu_usage_is_summed_not_averaged() {
    assert_eq!(total_cpu_hundredths(&vec![9000, 8000, 7550]), 24550);
    assert_eq!(total_cpu_hundredths(&Vec::new()), 0);
    assert_eq!(total_cpu_hundredths(&vec![u64::MAX, 5]), u64::MAX);
}

#[test]
fn process_line_format() {
    assert_eq!(process_line(&proc_info(42, "init", 1024)), "PID: 42 | init | Memory: 1024 KB");
}

#[test]
fn snapshot_renders_all_lines() {
    let vols = vec![
        VolumeSpace { total: 1000, available: 200 },
        VolumeSpace { total: 500, available: 600 },
    ];
    let ps = vec![proc_info(1, "a", 50), proc_info(2, "b", 200)];
    let s = build_snapshot(&vec![5000, 7000], 8000, 3000, &vols, &ps).unwrap();
    assert_eq!(s.cpu_hundredths, 12000);
    assert_eq!(s.disk, DiskUsage { total: 1500, used: 800 });
    let lines = render_snapshot(&s);
    assert_eq!(
        lines,
        vec![
            format!("CPU Usage: [{}] 120.00%", "=".repeat(50)),
            String::from("Memory Usage: 3000/8000 KB"),
            format!("Disk Usage: [{}{}] 53.33%", "=".repeat(26), " ".repeat(24)),
            String::new(),
            String::from("Top 3 Memory Consuming Processes:"),
            String::from("PID: 1 | a | Memory: 50 KB"),
            String::from("PID: 2 | b | Memory: 200 KB"),
        ]
    );
}
