use portly::commands::clean::{CleanAction, clean_action, clean_needs_confirmation, clean_candidates, found_heading, killed_summary, kill_orphans, orphan_line, orphaned_entries, status_debug_name};
use portly::commands::kill::{KillTarget, Resolution, failed_message, kill_needs_confirmation, kill_proceeds, kill_resolved, resolution_from, resolve_targets, kill_prompt, kill_result, kill_target, killed_message, not_found_result, resolve_target, target_listing_line};
use portly::commands::watch::{port_set, ports_not_in, watch_changes};
use portly::platform::MockPlatform;
use portly::process::{PortInfo, ProcessInfo, ProcessStatus};
use portly::ps::is_docker_process;
use portly::scanner::Scanner;

fn process(pid: u32, name: &str, status: ProcessStatus) -> ProcessInfo {
    ProcessInfo {
        pid,
        name: name.to_string(),
        command: format!("{} serve", name),
        status,
        memory_kb: 1000,
        cpu_percent_bits: 0.0f32.to_bits(),
        start_time: None,
        working_dir: None,
    }
}

fn entry(port: u16, pid: u32, status: ProcessStatus) -> PortInfo {
    PortInfo { port, pid, process_name: format!("p{}", pid), status, framework: None, project_name: None }
}

#[test]
fn test_is_docker_process() {
    assert!(is_docker_process("docker"));
    assert!(is_docker_process("Docker"));
    assert!(is_docker_process("com.docker.backend"));
    assert!(!is_docker_process("node"));
    assert!(!is_docker_process("python"));
}

#[test]
fn test_watch_change_detection() {
    let previous: Vec<u16> = vec![3000, 5000, 8080];
    let current: Vec<u16> = vec![3000, 5000, 9000];
    let new_ports: Vec<u16> = ports_not_in(&current, &previous);
    assert_eq!(new_ports, vec![9000]);
    let closed_ports: Vec<u16> = ports_not_in(&previous, &current);
    assert_eq!(closed_ports, vec![8080]);
}

#[test]
fn test_watch_no_changes() {
    let previous: Vec<u16> = vec![3000, 5000];
    let current: Vec<u16> = vec![3000, 5000];
    let new_ports: Vec<u16> = ports_not_in(&current, &previous);
    assert!(new_ports.is_empty());
    let closed_ports: Vec<u16> = ports_not_in(&previous, &current);
    assert!(closed_ports.is_empty());
}

#[test]
fn watch_reports_opened_entries_and_closed_ports() {
    let scan = vec![entry(3000, 1, ProcessStatus::Healthy), entry(9000, 2, ProcessStatus::Healthy), entry(9000, 3, ProcessStatus::Healthy)];
    let changes = watch_changes(&vec![3000, 8080], &scan);
    assert_eq!(changes.current, vec![3000, 9000]);
    assert_eq!(changes.closed, vec![8080]);
    assert_eq!(changes.opened.len(), 1);
    assert_eq!(changes.opened[0].pid, 2);
    assert_eq!(port_set(&scan), vec![3000, 9000]);
}

#[test]
fn targets_resolve_to_ports_then_pids() {
    let mock = MockPlatform::new()
        .with_port(3000, 1234)
        .with_process(1234, process(1234, "node.exe", ProcessStatus::Healthy))
        .with_process(70000, process(70000, "worker.exe", ProcessStatus::Healthy));
    let mut scanner = Scanner::new(mock);
    match resolve_target(&mut scanner, "3000").unwrap() {
        Resolution::Resolved(t) => {
            assert_eq!(t.kill_target, KillTarget::Port(3000, 1234));
            assert_eq!(t.process_name, "serve");
            assert_eq!(target_listing_line(&t), "  • :3000 — serve (PID 1234)");
        },
        Resolution::NotFound(_) => panic!("port 3000 should resolve"),
    }
    match resolve_target(&mut scanner, "70000").unwrap() {
        Resolution::Resolved(t) => {
            assert_eq!(t.kill_target, KillTarget::Pid(70000));
            assert_eq!(target_listing_line(&t), "  • worker.exe (PID 70000)");
        },
        Resolution::NotFound(_) => panic!("PID 70000 should resolve"),
    }
    assert!(matches!(resolve_target(&mut scanner, "4242").unwrap(), Resolution::NotFound(4242)));
    assert_eq!(resolve_target(&mut scanner, "abc").unwrap_err(), "Invalid target: abc");
    assert_eq!(resolve_target(&mut scanner, "-1").unwrap_err(), "Invalid target: -1");
}

#[test]
fn killing_a_target_reports_the_outcome() {
    let mock = MockPlatform::new()
        .with_port(3000, 1234)
        .with_process(1234, process(1234, "node.exe", ProcessStatus::Healthy));
    let mut scanner = Scanner::new(mock);
    let t = match resolve_target(&mut scanner, "3000").unwrap() {
        Resolution::Resolved(t) => t,
        Resolution::NotFound(_) => panic!("port 3000 should resolve"),
    };
    let (pid, outcome) = kill_target(&mut scanner, &t, true);
    assert_eq!(pid, 1234);
    assert!(outcome.is_ok());
    let result = kill_result(&t, pid, &outcome);
    assert!(result.success);
    assert_eq!(result.target, "3000");
    assert!(result.error.is_none());
    assert_eq!(scanner.platform().get_kill_calls(), vec![(1234, true)]);
    let missing = not_found_result("9", 9);
    assert_eq!(missing.error, Some("Port or PID 9 not found".to_string()));
}

#[test]
fn kill_messages() {
    assert_eq!(killed_message("node.exe", 1234, true), "✓ Killed node.exe (PID 1234)");
    assert_eq!(failed_message("node.exe", 1234, "Process 1234 not found", true), "✗ Failed to kill node.exe (PID 1234): Process 1234 not found");
    assert_eq!(kill_prompt(2), "\nKill 2 process(es)? [y/N] ");
}

#[test]
fn clean_finds_orphans_and_zombies_and_kills_them() {
    let mock = MockPlatform::new()
        .with_port(3000, 1)
        .with_port(4000, 2)
        .with_port(5000, 3)
        .with_process(1, process(1, "node.exe", ProcessStatus::Healthy))
        .with_process(2, process(2, "ruby.exe", ProcessStatus::Orphaned))
        .with_process(3, process(3, "deno.exe", ProcessStatus::Zombie));
    let mut scanner = Scanner::new(mock);
    let candidates = clean_candidates(&mut scanner).unwrap();
    let pids: Vec<u32> = candidates.iter().map(|p| p.pid).collect();
    assert_eq!(pids, vec![2, 3]);
    let (killed, outcomes) = kill_orphans(&mut scanner, &candidates);
    assert_eq!(killed, 2);
    assert_eq!(outcomes.len(), 2);
    assert_eq!(scanner.platform().get_kill_calls(), vec![(2, false), (3, false)]);
    assert_eq!(killed_summary(killed, candidates.len()), "\nKilled 2/2 process(es).");
    assert_eq!(found_heading(2), "Found 2 orphaned/zombie process(es):");
}

#[test]
fn orphan_listing_lines() {
    let e = entry(4000, 2, ProcessStatus::Orphaned);
    assert_eq!(orphan_line(&e, true), "  • :4000 — p2 (PID 2) [Orphaned]");
    assert_eq!(status_debug_name(ProcessStatus::Zombie), "Zombie");
    let ports = vec![entry(1, 1, ProcessStatus::Healthy), entry(2, 2, ProcessStatus::Zombie)];
    assert_eq!(orphaned_entries(&ports).len(), 1);
}

#[test]
fn resolution_prefers_the_port_then_the_process() {
    let port = entry(3000, 1234, ProcessStatus::Healthy);
    let info = process(3000, "node.exe", ProcessStatus::Healthy);
    match resolution_from("3000", 3000, Some(port.clone()), Some(info.clone())) {
        Resolution::Resolved(t) => {
            assert_eq!(t.kill_target, KillTarget::Port(3000, 1234));
            assert_eq!(t.process_name, "p1234");
            assert_eq!(t.target, "3000");
        },
        Resolution::NotFound(_) => panic!("the port entry should decide"),
    }
    match resolution_from("3000", 3000, None, Some(info.clone())) {
        Resolution::Resolved(t) => {
            assert_eq!(t.kill_target, KillTarget::Pid(3000));
            assert_eq!(t.process_name, "node.exe");
        },
        Resolution::NotFound(_) => panic!("the process should decide"),
    }
    match resolution_from("70000", 70000, Some(port), None) {
        Resolution::NotFound(n) => assert_eq!(n, 70000),
        Resolution::Resolved(_) => panic!("a number above 65535 names no port"),
    }
    assert!(matches!(resolution_from("9999", 9999, None, None), Resolution::NotFound(9999)));
}

#[test]
fn a_port_target_is_killed_with_the_force_given() {
    let mock = MockPlatform::new()
        .with_port(3000, 1234)
        .with_process(1234, process(1234, "node.exe", ProcessStatus::Healthy));
    let mut scanner = Scanner::new(mock);
    let t = match resolve_target(&mut scanner, "3000").unwrap() {
        Resolution::Resolved(t) => t,
        Resolution::NotFound(_) => panic!("port 3000 should resolve"),
    };
    assert_eq!(t.kill_target, KillTarget::Port(3000, 1234));
    let (pid, outcome) = kill_target(&mut scanner, &t, false);
    assert_eq!(pid, 1234);
    assert!(outcome.is_ok());
    assert_eq!(scanner.platform().get_kill_calls(), vec![(1234, false)]);
    let mut empty = Scanner::new(MockPlatform::new());
    assert!(matches!(resolve_target(&mut empty, "9999").unwrap(), Resolution::NotFound(9999)));
    assert!(empty.platform().get_kill_calls().is_empty());
}

#[test]
fn cleaning_kills_only_the_orphans_gracefully() {
    let mock = MockPlatform::new()
        .with_port(3000, 1234)
        .with_process(1234, process(1234, "node.exe", ProcessStatus::Zombie))
        .with_port(8080, 5678)
        .with_process(5678, process(5678, "python.exe", ProcessStatus::Healthy));
    let mut scanner = Scanner::new(mock);
    let candidates = clean_candidates(&mut scanner).unwrap();
    assert_eq!(candidates.len(), 1);
    assert_eq!(candidates[0].port, 3000);
    let (killed, _) = kill_orphans(&mut scanner, &candidates);
    assert_eq!(killed, 1);
    assert_eq!(scanner.platform().get_kill_calls(), vec![(1234, false)]);
}

#[test]
fn clean_is_a_dry_run_unless_executed_and_confirmed() {
    assert_eq!(clean_action(false, false, None), CleanAction::DryRun);
    assert_eq!(clean_action(false, true, Some("y")), CleanAction::DryRun);
    assert_eq!(clean_action(true, true, None), CleanAction::Kill);
    assert_eq!(clean_action(true, false, Some(" Yes\n")), CleanAction::Kill);
    assert_eq!(clean_action(true, false, Some("n")), CleanAction::Cancel);
    assert_eq!(clean_action(true, false, None), CleanAction::Cancel);
    assert!(clean_needs_confirmation(true, false));
    assert!(!clean_needs_confirmation(true, true));
    assert!(!clean_needs_confirmation(false, false));
}

#[test]
fn kill_asks_unless_forced_or_json() {
    assert!(kill_needs_confirmation(false, false));
    assert!(!kill_needs_confirmation(true, false));
    assert!(!kill_needs_confirmation(false, true));
    assert!(kill_proceeds(true, false, None));
    assert!(kill_proceeds(false, true, None));
    assert!(kill_proceeds(false, false, Some("y")));
    assert!(!kill_proceeds(false, false, Some("no")));
    assert!(!kill_proceeds(false, false, None));
}

#[test]
fn targets_are_all_resolved_before_any_kill() {
    let mock = MockPlatform::new()
        .with_port(3000, 1234)
        .with_process(1234, process(1234, "node.exe", ProcessStatus::Healthy))
        .with_port(5000, 5678)
        .with_process(5678, process(5678, "python.exe", ProcessStatus::Healthy));
    let mut scanner = Scanner::new(mock);
    let targets = vec!["3000".to_string(), "9999".to_string(), "5000".to_string()];
    let resolutions = resolve_targets(&mut scanner, &targets).unwrap();
    assert_eq!(resolutions.len(), 3);
    let mut resolved = Vec::new();
    for r in resolutions {
        match r {
            Resolution::Resolved(t) => resolved.push(t),
            Resolution::NotFound(n) => assert_eq!(n, 9999),
        }
    }
    assert_eq!(resolved.len(), 2);
    assert_eq!(resolved[0].kill_target, KillTarget::Port(3000, 1234));
    assert_eq!(resolved[1].kill_target, KillTarget::Port(5000, 5678));
    assert!(scanner.platform().get_kill_calls().is_empty());
    let outcomes = kill_resolved(&mut scanner, &resolved, true);
    assert_eq!(outcomes.len(), 2);
    assert_eq!(outcomes[0].0, 1234);
    assert_eq!(outcomes[1].0, 5678);
    assert!(outcomes.iter().all(|(_, o)| o.is_ok()));
    assert_eq!(scanner.platform().get_kill_calls(), vec![(1234, true), (5678, true)]);
}

#[test]
fn an_invalid_target_stops_the_kill_command() {
    let mock = MockPlatform::new()
        .with_port(3000, 1234)
        .with_process(1234, process(1234, "node.exe", ProcessStatus::Healthy));
    let mut scanner = Scanner::new(mock);
    let targets = vec!["3000".to_string(), "abc".to_string(), "x".to_string()];
    assert_eq!(resolve_targets(&mut scanner, &targets).unwrap_err(), "Invalid target: abc");
    assert!(scanner.platform().get_kill_calls().is_empty());
    assert_eq!(resolve_targets(&mut scanner, &vec![]).unwrap().len(), 0);
}
