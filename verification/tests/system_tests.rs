use portly::process::{ProcessInfo, ProcessStatus};
use portly::ps::{group_docker_processes, ps_entries, select_processes};
use portly::system::{ProcessRecord, SocketEntry, all_processes, classify_status, join_command, listening_ports, lookup_process, process_tree_from};
use portly::config::Config;
use portly::display::Display;
use portly::platform::MockPlatform;
use portly::scanner::Scanner;
use portly::cli::{counter_visible, progress_visible};

fn record(pid: u32, parent: Option<u32>, name: &str) -> ProcessRecord {
    ProcessRecord {
        pid,
        parent,
        name: name.to_string(),
        args: vec![name.to_string(), "--serve".to_string()],
        memory_bytes: 2048 * 1024,
        cpu_percent_bits: 1.5f32.to_bits(),
        start_time: 1_700_000_000,
        cwd: Some("C:\\work\\site".to_string()),
    }
}

fn info(pid: u32, name: &str, memory_kb: u64) -> ProcessInfo {
    ProcessInfo {
        pid,
        name: name.to_string(),
        command: String::new(),
        status: ProcessStatus::Healthy,
        memory_kb,
        cpu_percent_bits: 1.0f32.to_bits(),
        start_time: Some(100),
        working_dir: None,
    }
}

#[test]
fn only_listening_tcp_sockets_with_a_process_count() {
    let sockets = vec![
        SocketEntry { tcp_listening: true, local_port: 3000, first_pid: Some(10) },
        SocketEntry { tcp_listening: false, local_port: 53, first_pid: Some(11) },
        SocketEntry { tcp_listening: true, local_port: 8080, first_pid: None },
        SocketEntry { tcp_listening: true, local_port: 5432, first_pid: Some(12) },
    ];
    let ports = listening_ports(&sockets);
    let pairs: Vec<(u16, u32)> = ports.iter().map(|p| (p.port, p.pid)).collect();
    assert_eq!(pairs, vec![(3000, 10), (5432, 12)]);
}

#[test]
fn status_classification() {
    assert_eq!(classify_status(0, true, 10), ProcessStatus::Zombie);
    assert_eq!(classify_status(100, false, 1001), ProcessStatus::Orphaned);
    assert_eq!(classify_status(100, false, 1000), ProcessStatus::Healthy);
    assert_eq!(classify_status(100, true, 5000), ProcessStatus::Healthy);
}

#[test]
fn command_lines_join_arguments() {
    assert_eq!(join_command(&vec!["node".to_string(), "server.js".to_string()]), "node server.js");
    assert_eq!(join_command(&vec![]), "");
}

#[test]
fn records_become_process_information() {
    let table = vec![record(4000, Some(1), "node.exe")];
    let p = lookup_process(&table, 4000).unwrap();
    assert_eq!(p.command, "node.exe --serve");
    assert_eq!(p.memory_kb, 2048);
    assert_eq!(p.status, ProcessStatus::Healthy);
    assert_eq!(p.start_time, Some(1_700_000_000));
    assert_eq!(p.working_dir, Some("C:\\work\\site".to_string()));
    let missing = lookup_process(&table, 1).unwrap_err();
    assert_eq!(missing.message(), "Process 1 not found");
    assert_eq!(all_processes(&table).len(), 1);
}

#[test]
fn ancestry_walks_up_and_stops() {
    let table = vec![record(30, Some(20), "c"), record(20, Some(10), "b"), record(10, None, "a")];
    let tree = process_tree_from(&table, 30);
    let chain: Vec<(u32, u32)> = tree.iter().map(|n| (n.pid, n.ppid)).collect();
    assert_eq!(chain, vec![(30, 20), (20, 10), (10, 0)]);
    let cycle = vec![record(1, Some(2), "x"), record(2, Some(1), "y")];
    assert_eq!(process_tree_from(&cycle, 1).len(), 8);
    let own = vec![record(5, Some(5), "self")];
    assert_eq!(process_tree_from(&own, 5).len(), 1);
    assert!(process_tree_from(&table, 99).is_empty());
}

#[test]
fn docker_processes_are_grouped() {
    let processes = vec![info(300, "com.docker.backend", 100), info(10, "node.exe", 5), info(200, "Docker Desktop", 50)];
    let grouped = group_docker_processes(processes, 7.5f32.to_bits());
    assert_eq!(grouped.len(), 2);
    assert_eq!(grouped[0].name, "node.exe");
    assert_eq!(grouped[1].name, "Docker");
    assert_eq!(grouped[1].pid, 200);
    assert_eq!(grouped[1].memory_kb, 150);
    assert_eq!(grouped[1].command, "2 containers");
    assert_eq!(f32::from_bits(grouped[1].cpu_percent_bits), 7.5);
    let plain = group_docker_processes(vec![info(1, "node", 1)], 0);
    assert_eq!(plain.len(), 1);
    assert_eq!(plain[0].name, "node");
}

#[test]
fn dev_processes_leave_out_system_ones() {
    let processes = vec![info(1, "svchost.exe", 1), info(2, "node.exe", 1)];
    let kept = select_processes(processes.clone(), false);
    assert_eq!(kept.len(), 1);
    assert_eq!(kept[0].pid, 2);
    assert_eq!(select_processes(processes, true).len(), 2);
}

#[test]
fn ps_entries_describe_each_process() {
    let mut scanner = Scanner::new(MockPlatform::new());
    let display = Display::with_width(80, false, false);
    let mut p = info(42, "node.exe", 2048);
    p.command = "node /app/next dev".to_string();
    p.working_dir = Some("C:\\work\\shop".to_string());
    let entries = ps_entries(&mut scanner, &display, &vec![p], 400);
    assert_eq!(entries.len(), 1);
    assert_eq!(entries[0].uptime, "5m");
    assert_eq!(entries[0].what, "next dev");
    assert_eq!(entries[0].project_name, Some("shop".to_string()));
    assert_eq!(entries[0].framework, Some("Next.js".to_string()));
    let _ = Config::default();
}

#[test]
fn progress_is_hidden_for_json_and_quiet() {
    assert!(progress_visible(false, false));
    assert!(!progress_visible(true, false));
    assert!(!progress_visible(false, true));
    assert!(counter_visible(3, false, false));
    assert!(!counter_visible(0, false, false));
}
