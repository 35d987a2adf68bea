use oxiproc::process::{collect_processes, mean_reading, sort_by_cpu_desc, Categorizer,
    ProcessCategory, ProcessData, ProcessSample};
use oxiproc::text::{format_duration, format_memory};

fn sample(pid: u32, name: &str, cpu_usage: u64, exe_path: Option<&str>) -> ProcessSample {
    ProcessSample {
        pid,
        name: name.to_string(),
        memory: 1024 * pid as u64,
        cpu_usage,
        exe_path: exe_path.map(|p| p.to_string()),
    }
}

fn record(pid: u32, cpu_usage: u64) -> ProcessData {
    ProcessData {
        pid,
        name: format!("proc{}", pid),
        memory: 0,
        cpu_usage,
        category: ProcessCategory::User,
    }
}

#[test]
fn snapshot_is_sorted_by_cpu_descending() {
    let cat = Categorizer::new();
    let samples = vec![
        sample(10, "a.exe", 100, None),
        sample(11, "b.exe", 300, None),
        sample(12, "c.exe", 200, None),
    ];
    let (list, _) = collect_processes(samples, &cat, 0, 0, &vec![], 0);
    let cpus: Vec<u64> = list.iter().map(|p| p.cpu_usage).collect();
    assert_eq!(cpus, vec![300, 200, 100]);
    let pids: Vec<u32> = list.iter().map(|p| p.pid).collect();
    assert_eq!(pids, vec![11, 12, 10]);
}

#[test]
fn sort_keeps_enumeration_order_for_equal_cpu() {
    let list = vec![record(1, 200), record(2, 100), record(3, 200), record(4, 200)];
    let sorted = sort_by_cpu_desc(list);
    let pids: Vec<u32> = sorted.iter().map(|p| p.pid).collect();
    // The three records with equal usage keep their original relative order.
    assert_eq!(pids, vec![1, 3, 4, 2]);
}

#[test]
fn sort_of_empty_list_is_empty() {
    let sorted = sort_by_cpu_desc(Vec::new());
    assert!(sorted.is_empty());
}

#[test]
fn snapshot_classifies_each_record() {
    let cat = Categorizer::new();
    let samples = vec![
        sample(10, "smss.exe", 50, None),
        sample(20, "svchost.exe", 40, Some("C:\\Windows\\System32\\svchost.exe")),
        sample(30, "notepad.exe", 30, Some("C:\\Users\\me\\notepad.exe")),
    ];
    let (list, _) = collect_processes(samples, &cat, 0, 0, &vec![], 0);
    assert_eq!(list[0].category, ProcessCategory::System);
    assert_eq!(list[0].name, "smss.exe");
    assert_eq!(list[1].category, ProcessCategory::Service);
    assert_eq!(list[1].name, "svchost.exe");
    assert_eq!(list[2].category, ProcessCategory::User);
}

#[test]
fn stats_pass_through_and_average_cores() {
    let cat = Categorizer::new();
    let cores = vec![1000, 2000, 4000];
    let (_, stats) = collect_processes(Vec::new(), &cat, 8192, 4096, &cores, 777);
    assert_eq!(stats.total_memory, 8192);
    assert_eq!(stats.used_memory, 4096);
    assert_eq!(stats.cpu_usage, 2333); // floor of 7000 / 3
    assert_eq!(stats.uptime, 777);
}

#[test]
fn zero_cores_reported_degrades_to_zero_cpu() {
    let cat = Categorizer::new();
    let (list, stats) = collect_processes(Vec::new(), &cat, 0, 0, &vec![], 1);
    assert!(list.is_empty());
    assert_eq!(stats.cpu_usage, 0);
}

#[test]
fn mean_reading_exact_values() {
    assert_eq!(mean_reading(&vec![]), 0);
    assert_eq!(mean_reading(&vec![10]), 10);
    assert_eq!(mean_reading(&vec![1, 2]), 1);
    assert_eq!(mean_reading(&vec![u64::MAX, u64::MAX]), u64::MAX);
}

#[test]
fn format_memory_kilobytes() {
    assert_eq!(format_memory(0), "0 KB");
    assert_eq!(format_memory(500), "0 KB");
    assert_eq!(format_memory(2048), "2 KB");
    assert_eq!(format_memory(1024 * 1024 - 1), "1023 KB");
}

#[test]
fn format_memory_megabytes() {
    assert_eq!(format_memory(1024 * 1024), "1.00 MB");
    assert_eq!(format_memory(1024 * 1024 + 1024 * 512), "1.50 MB");
    // 1 GiB minus one byte: the hundredths round up and carry.
    assert_eq!(format_memory(1024 * 1024 * 1024 - 1), "1024.00 MB");
}

#[test]
fn format_memory_gigabytes() {
    assert_eq!(format_memory(1024 * 1024 * 1024), "1.00 GB");
    assert_eq!(format_memory(3 * 1024 * 1024 * 1024 / 2), "1.50 GB");
    // about 1.998 GiB: rounds up to two whole gibibytes...
    assert_eq!(format_memory(2 * 1024 * 1024 * 1024 - 2 * 1024 * 1024), "2.00 GB");
    // ...while about 1.994 GiB rounds down.
    assert_eq!(format_memory(2141000000), "1.99 GB");
    assert_eq!(format_memory(u64::MAX), "17179869184.00 GB");
}

#[test]
fn format_duration_fields() {
    assert_eq!(format_duration(0), "00:00:00");
    assert_eq!(format_duration(59), "00:00:59");
    assert_eq!(format_duration(3661), "01:01:01");
    assert_eq!(format_duration(86399), "23:59:59");
    assert_eq!(format_duration(360061), "100:01:01");
}
