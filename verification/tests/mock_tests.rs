use portly::error::PortlyError;
use portly::platform::{MockPlatform, Platform};
use portly::process::{ProcessInfo, ProcessNode, ProcessStatus, RawPortInfo};

fn process(pid: u32, name: &str, command: &str, memory_kb: u64, cpu: f32) -> ProcessInfo {
    ProcessInfo {
        pid,
        name: name.to_string(),
        command: command.to_string(),
        status: ProcessStatus::Healthy,
        memory_kb,
        cpu_percent_bits: cpu.to_bits(),
        start_time: None,
        working_dir: None,
    }
}

fn node_process() -> ProcessInfo {
    process(1234, "node.exe", "node server.js", 50000, 2.5)
}

fn python_process() -> ProcessInfo {
    process(5678, "python.exe", "python app.py", 80000, 5.0)
}

#[test]
fn test_mock_platform_new() {
    let mock = MockPlatform::new();
    assert!(mock.ports.is_empty());
    assert!(mock.processes.is_empty());
    assert!(mock.process_trees.is_empty());
    assert!(mock.kill_calls.is_empty());
}

#[test]
fn test_get_listening_ports() {
    let mut mock = MockPlatform::new();
    mock.ports.push(RawPortInfo { port: 3000, pid: 1234 });
    mock.ports.push(RawPortInfo { port: 8080, pid: 5678 });
    let ports = mock.get_listening_ports().unwrap();
    assert_eq!(ports.len(), 2);
    assert_eq!(ports[0].port, 3000);
    assert_eq!(ports[0].pid, 1234);
    assert_eq!(ports[1].port, 8080);
    assert_eq!(ports[1].pid, 5678);
}

#[test]
fn test_get_process_info_success() {
    let mut mock = MockPlatform::new();
    let mut p = node_process();
    p.working_dir = Some("C:\\projects\\app".to_string());
    mock.processes.push((1234, p.clone()));
    let result = mock.get_process_info(1234).unwrap();
    assert_eq!(result, p);
}

#[test]
fn test_get_process_info_not_found() {
    let mock = MockPlatform::new();
    let result = mock.get_process_info(9999);
    assert!(result.is_err());
    assert!(matches!(result.unwrap_err(), PortlyError::ProcessNotFound { pid: 9999, .. }));
}

#[test]
fn test_get_process_tree_success() {
    let mut mock = MockPlatform::new();
    let tree = vec![
        ProcessNode { pid: 1234, ppid: 5678, name: "node.exe".to_string() },
        ProcessNode { pid: 5678, ppid: 0, name: "cmd.exe".to_string() },
    ];
    mock.process_trees.push((1234, tree.clone()));
    let result = mock.get_process_tree(1234).unwrap();
    assert_eq!(result.len(), 2);
    assert_eq!(result[0].pid, 1234);
    assert_eq!(result[1].pid, 5678);
}

#[test]
fn test_get_process_tree_not_found() {
    let mock = MockPlatform::new();
    let result = mock.get_process_tree(9999);
    assert!(result.is_err());
    assert!(matches!(result.unwrap_err(), PortlyError::ProcessNotFound { pid: 9999, .. }));
}

#[test]
fn test_kill_process_success() {
    let mut mock = MockPlatform::new();
    mock.processes.push((1234, node_process()));
    let result = mock.kill_process(1234, false);
    assert!(result.is_ok());
}

#[test]
fn test_kill_process_not_found() {
    let mut mock = MockPlatform::new();
    let result = mock.kill_process(9999, false);
    assert!(result.is_err());
    assert!(matches!(result.unwrap_err(), PortlyError::ProcessNotFound { pid: 9999, .. }));
}

#[test]
fn test_get_all_processes() {
    let mut mock = MockPlatform::new();
    mock.processes.push((1234, node_process()));
    mock.processes.push((5678, python_process()));
    let all_processes = mock.get_all_processes().unwrap();
    assert_eq!(all_processes.len(), 2);
    let pids: Vec<u32> = all_processes.iter().map(|p| p.pid).collect();
    assert!(pids.contains(&1234));
    assert!(pids.contains(&5678));
}

#[test]
fn test_get_all_processes_empty() {
    let mock = MockPlatform::new();
    let all_processes = mock.get_all_processes().unwrap();
    assert!(all_processes.is_empty());
}

#[test]
fn test_builder_with_port() {
    let mock = MockPlatform::new().with_port(3000, 1234).with_port(8080, 5678);
    let ports = mock.get_listening_ports().unwrap();
    assert_eq!(ports.len(), 2);
    assert_eq!(ports[0].port, 3000);
    assert_eq!(ports[0].pid, 1234);
    assert_eq!(ports[1].port, 8080);
    assert_eq!(ports[1].pid, 5678);
}

#[test]
fn test_builder_with_process() {
    let process1 = node_process();
    let process2 = python_process();
    let mock = MockPlatform::new().with_process(1234, process1.clone()).with_process(5678, process2.clone());
    assert_eq!(mock.get_process_info(1234).unwrap(), process1);
    assert_eq!(mock.get_process_info(5678).unwrap(), process2);
}

#[test]
fn test_builder_with_process_tree() {
    let tree = vec![
        ProcessNode { pid: 1234, ppid: 5678, name: "node.exe".to_string() },
        ProcessNode { pid: 5678, ppid: 0, name: "cmd.exe".to_string() },
    ];
    let mock = MockPlatform::new().with_process_tree(1234, tree.clone());
    let result = mock.get_process_tree(1234).unwrap();
    assert_eq!(result.len(), 2);
    assert_eq!(result[0].pid, 1234);
    assert_eq!(result[1].pid, 5678);
}

#[test]
fn test_builder_chaining_all_methods() {
    let p = node_process();
    let tree = vec![ProcessNode { pid: 1234, ppid: 0, name: "node.exe".to_string() }];
    let mock = MockPlatform::new()
        .with_port(3000, 1234)
        .with_process(1234, p.clone())
        .with_process_tree(1234, tree.clone());
    let ports = mock.get_listening_ports().unwrap();
    assert_eq!(ports.len(), 1);
    assert_eq!(ports[0].port, 3000);
    assert_eq!(mock.get_process_info(1234).unwrap(), p);
    assert_eq!(mock.get_process_tree(1234).unwrap().len(), 1);
}

#[test]
fn test_assert_killed_success() {
    let mut mock = MockPlatform::new().with_process(1234, node_process());
    mock.kill_process(1234, false).unwrap();
    assert!(mock.assert_killed(1234));
}

#[test]
#[should_panic(expected = "Expected process 1234 to be killed")]
fn test_assert_killed_failure() {
    let mock = MockPlatform::new();
    assert!(mock.assert_killed(1234), "Expected process 1234 to be killed");
}

#[test]
fn test_assert_not_killed_success() {
    let mock = MockPlatform::new();
    assert!(mock.assert_not_killed(1234));
}

#[test]
#[should_panic(expected = "Expected process 1234 to NOT be killed")]
fn test_assert_not_killed_failure() {
    let mut mock = MockPlatform::new().with_process(1234, node_process());
    mock.kill_process(1234, false).unwrap();
    assert!(mock.assert_not_killed(1234), "Expected process 1234 to NOT be killed");
}

#[test]
fn test_assert_kill_count_success() {
    let mut mock = MockPlatform::new().with_process(1234, node_process()).with_process(5678, python_process());
    mock.kill_process(1234, false).unwrap();
    mock.kill_process(5678, true).unwrap();
    assert!(mock.assert_kill_count(2));
}

#[test]
#[should_panic(expected = "Expected 3 kill calls, but got 2")]
fn test_assert_kill_count_failure() {
    let mut mock = MockPlatform::new().with_process(1234, node_process()).with_process(5678, python_process());
    mock.kill_process(1234, false).unwrap();
    mock.kill_process(5678, true).unwrap();
    assert!(mock.assert_kill_count(3), "Expected 3 kill calls, but got {}", mock.get_kill_calls().len());
}

#[test]
fn test_get_kill_calls() {
    let mut mock = MockPlatform::new().with_process(1234, node_process()).with_process(5678, python_process());
    mock.kill_process(1234, false).unwrap();
    mock.kill_process(5678, true).unwrap();
    let calls = mock.get_kill_calls();
    assert_eq!(calls.len(), 2);
    assert_eq!(calls[0], (1234, false));
    assert_eq!(calls[1], (5678, true));
}

#[test]
fn test_get_kill_calls_empty() {
    let mock = MockPlatform::new();
    assert!(mock.get_kill_calls().is_empty());
}

#[test]
fn test_kill_process_records_force_flag() {
    let mut mock = MockPlatform::new().with_process(1234, node_process());
    mock.kill_process(1234, false).unwrap();
    let calls = mock.get_kill_calls();
    assert_eq!(calls.len(), 1);
    assert_eq!(calls[0].1, false);
    mock.kill_process(1234, true).unwrap();
    let calls = mock.get_kill_calls();
    assert_eq!(calls.len(), 2);
    assert_eq!(calls[1].1, true);
}

#[test]
fn test_error_simulation_on_port() {
    let mock = MockPlatform::new().with_port(3000, 1234).with_error_on_port(3000);
    let result = mock.get_listening_ports();
    assert!(result.is_err());
    let err_msg = result.unwrap_err().message();
    assert!(err_msg.contains("Simulated error for port 3000"));
}

#[test]
fn test_error_simulation_on_pid_get_process_info() {
    let mock = MockPlatform::new().with_process(1234, node_process()).with_error_on_pid(1234);
    let result = mock.get_process_info(1234);
    assert!(result.is_err());
    assert!(result.unwrap_err().message().contains("Simulated error for PID 1234"));
}

#[test]
fn test_error_simulation_on_pid_get_process_tree() {
    let tree = vec![ProcessNode { pid: 1234, ppid: 0, name: "node.exe".to_string() }];
    let mock = MockPlatform::new().with_process_tree(1234, tree).with_error_on_pid(1234);
    let result = mock.get_process_tree(1234);
    assert!(result.is_err());
    assert!(result.unwrap_err().message().contains("Simulated error for PID 1234"));
}

#[test]
fn test_error_simulation_on_pid_kill_process() {
    let mut mock = MockPlatform::new().with_process(1234, node_process()).with_error_on_pid(1234);
    let result = mock.kill_process(1234, false);
    assert!(result.is_err());
    assert!(result.unwrap_err().message().contains("Simulated error for PID 1234"));
    assert!(mock.get_kill_calls().is_empty());
}

#[test]
fn test_process_exit_scenario() {
    let mock = MockPlatform::new().with_port(3000, 1234).with_error_on_pid(1234);
    let ports = mock.get_listening_ports().unwrap();
    assert_eq!(ports.len(), 1);
    assert_eq!(ports[0].port, 3000);
    assert_eq!(ports[0].pid, 1234);
    let result = mock.get_process_info(1234);
    assert!(result.is_err());
    assert!(result.unwrap_err().message().contains("Simulated error"));
}

#[test]
fn test_permission_denied_scenario() {
    let p = process(1234, "system.exe", "system process", 10000, 1.0);
    let mut mock = MockPlatform::new().with_process(1234, p).with_error_on_pid(1234);
    let result = mock.kill_process(1234, false);
    assert!(result.is_err());
    assert!(result.unwrap_err().message().contains("Simulated error"));
    assert!(mock.assert_kill_count(0));
}

#[test]
fn test_error_on_port_not_in_list() {
    let mock = MockPlatform::new().with_port(3000, 1234).with_error_on_port(8080);
    let result = mock.get_listening_ports();
    assert!(result.is_ok());
    let ports = result.unwrap();
    assert_eq!(ports.len(), 1);
    assert_eq!(ports[0].port, 3000);
}

#[test]
fn test_error_on_pid_not_in_list() {
    let p = node_process();
    let mut mock = MockPlatform::new().with_process(1234, p.clone()).with_error_on_pid(5678);
    let result = mock.get_process_info(1234);
    assert!(result.is_ok());
    assert_eq!(result.unwrap(), p);
    assert!(mock.kill_process(1234, false).is_ok());
    assert!(mock.assert_killed(1234));
}

#[test]
fn test_multiple_operations_with_error_simulation() {
    let tree = vec![ProcessNode { pid: 1234, ppid: 0, name: "node.exe".to_string() }];
    let mut mock = MockPlatform::new()
        .with_port(3000, 1234)
        .with_process(1234, node_process())
        .with_process_tree(1234, tree)
        .with_error_on_pid(1234);
    assert!(mock.get_listening_ports().is_ok());
    assert!(mock.get_process_info(1234).is_err());
    assert!(mock.get_process_tree(1234).is_err());
    assert!(mock.kill_process(1234, false).is_err());
}

#[test]
fn process_chain_has_the_requested_depth() {
    for depth in [0usize, 1, 3, 20] {
        let mock = MockPlatform::new().with_process_chain(1000, depth);
        if depth == 0 {
            assert!(mock.get_process_tree(1000).is_err());
        } else {
            let tree = mock.get_process_tree(1000).unwrap();
            assert_eq!(tree.len(), depth);
            for (i, node) in tree.iter().enumerate() {
                assert_eq!(node.pid, 1000 + i as u32);
                assert_eq!(node.ppid, if i == 0 { 0 } else { 1000 + (i - 1) as u32 });
                assert_eq!(node.name, format!("process_{}.exe", 1000 + i as u32));
            }
        }
    }
}

#[test]
fn process_tree_cycle_names_each_other() {
    let mock = MockPlatform::new().with_process_tree_cycle(4000);
    let tree = mock.get_process_tree(4000).unwrap();
    assert_eq!(tree.len(), 2);
    assert_eq!((tree[0].pid, tree[0].ppid), (4000, 4001));
    assert_eq!((tree[1].pid, tree[1].ppid), (4001, 4000));
}

#[test]
fn independent_chains_coexist() {
    let mock = MockPlatform::new().with_process_chain(1000, 3).with_process_chain(6000, 5);
    assert_eq!(mock.get_process_tree(1000).unwrap().len(), 3);
    assert_eq!(mock.get_process_tree(6000).unwrap().len(), 5);
}

#[test]
fn later_process_entry_replaces_earlier() {
    let first = node_process();
    let mut second = node_process();
    second.name = "deno.exe".to_string();
    let mock = MockPlatform::new().with_process(1234, first).with_process(1234, second.clone());
    assert_eq!(mock.get_process_info(1234).unwrap(), second);
    assert_eq!(mock.get_all_processes().unwrap().len(), 1);
}
