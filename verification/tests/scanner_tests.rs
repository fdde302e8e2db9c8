use portly::docker::{ContainerSummary, DockerClient};
use portly::platform::{MockPlatform, Platform};
use portly::process::{PortInfo, ProcessInfo, ProcessStatus};
use portly::scanner::{Scanner, extract_command_description, find_port, is_system_process, project_name_of, sort_by_port};

fn process(pid: u32, name: &str, command: &str, status: ProcessStatus, memory_kb: u64, cpu: f32, working_dir: Option<&str>) -> ProcessInfo {
    ProcessInfo {
        pid,
        name: name.to_string(),
        command: command.to_string(),
        status,
        memory_kb,
        cpu_percent_bits: cpu.to_bits(),
        start_time: None,
        working_dir: working_dir.map(|d| d.to_string()),
    }
}

#[test]
fn test_extract_command_description_node() {
    assert_eq!(extract_command_description("node /usr/bin/next dev", "node"), "next dev");
    assert_eq!(extract_command_description("node C:\\path\\to\\vite --port 3000", "node"), "vite --port 3000");
}

#[test]
fn test_extract_command_description_python() {
    assert_eq!(extract_command_description("python manage.py runserver", "python"), "runserver");
    assert_eq!(extract_command_description("python3 manage.py migrate", "python3"), "migrate");
}

#[test]
fn test_extract_command_description_cargo() {
    assert_eq!(extract_command_description("cargo run --bin server", "cargo"), "cargo run --bin server");
}

#[test]
fn test_extract_command_description_fallback() {
    assert_eq!(extract_command_description("", "postgres"), "postgres");
    assert_eq!(extract_command_description("unknown command", "unknown"), "unknown");
}

#[test]
fn test_is_system_process() {
    assert!(is_system_process("svchost.exe"));
    assert!(is_system_process("explorer.exe"));
    assert!(is_system_process("Spotify.exe"));
    assert!(is_system_process("chrome.exe"));
    assert!(!is_system_process("node.exe"));
    assert!(!is_system_process("python.exe"));
    assert!(!is_system_process("cargo.exe"));
}

#[test]
fn test_scanner_filters_system_processes() {
    let mock = MockPlatform::new()
        .with_port(3000, 1234)
        .with_process(1234, process(1234, "node.exe", "node server.js", ProcessStatus::Healthy, 50000, 5.0, Some("C:\\projects\\my-app")))
        .with_port(5000, 5678)
        .with_process(5678, process(5678, "svchost.exe", "C:\\Windows\\System32\\svchost.exe", ProcessStatus::Healthy, 10000, 1.0, None));
    let mut scanner = Scanner::new(mock);
    let ports = scanner.scan(false).unwrap();
    assert_eq!(ports.len(), 1);
    assert_eq!(ports[0].port, 3000);
    assert_eq!(ports[0].process_name, "server.js");
}

#[test]
fn test_scanner_handles_process_exit() {
    let mock = MockPlatform::new().with_port(3000, 1234).with_error_on_pid(1234);
    let mut scanner = Scanner::new(mock);
    let ports = scanner.scan(false).unwrap();
    assert_eq!(ports.len(), 0);
}

#[test]
fn test_scanner_detects_zombie_processes() {
    let mock = MockPlatform::new()
        .with_port(3000, 1234)
        .with_process(1234, process(1234, "node.exe", "node server.js", ProcessStatus::Zombie, 0, 0.0, None));
    let mut scanner = Scanner::new(mock);
    let ports = scanner.scan(false).unwrap();
    assert_eq!(ports.len(), 1);
    assert_eq!(ports[0].status, ProcessStatus::Zombie);
}

#[test]
fn test_scanner_detects_orphaned_processes() {
    let mock = MockPlatform::new()
        .with_port(3000, 1234)
        .with_process(1234, process(1234, "node.exe", "node server.js", ProcessStatus::Orphaned, 50000, 5.0, None));
    let mut scanner = Scanner::new(mock);
    let ports = scanner.scan(false).unwrap();
    assert_eq!(ports.len(), 1);
    assert_eq!(ports[0].status, ProcessStatus::Orphaned);
}

#[test]
fn test_scanner_handles_empty_port_list() {
    let mock = MockPlatform::new();
    let mut scanner = Scanner::new(mock);
    let ports = scanner.scan(false).unwrap();
    assert_eq!(ports.len(), 0);
}

#[test]
fn test_scanner_handles_multiple_ports_same_pid() {
    let mock = MockPlatform::new()
        .with_port(3000, 1234)
        .with_port(3001, 1234)
        .with_port(3002, 1234)
        .with_process(1234, process(1234, "node.exe", "node server.js", ProcessStatus::Healthy, 50000, 5.0, Some("C:\\projects\\my-app")));
    let mut scanner = Scanner::new(mock);
    let ports = scanner.scan(false).unwrap();
    assert_eq!(ports.len(), 3);
    assert_eq!(ports[0].port, 3000);
    assert_eq!(ports[1].port, 3001);
    assert_eq!(ports[2].port, 3002);
    assert_eq!(ports[0].pid, 1234);
    assert_eq!(ports[1].pid, 1234);
    assert_eq!(ports[2].pid, 1234);
}

#[test]
fn test_scanner_show_all_includes_system_processes() {
    let mock = MockPlatform::new()
        .with_port(3000, 1234)
        .with_process(1234, process(1234, "node.exe", "node server.js", ProcessStatus::Healthy, 50000, 5.0, None))
        .with_port(5000, 5678)
        .with_process(5678, process(5678, "svchost.exe", "C:\\Windows\\System32\\svchost.exe", ProcessStatus::Healthy, 10000, 1.0, None));
    let mut scanner = Scanner::new(mock);
    let ports = scanner.scan(true).unwrap();
    assert_eq!(ports.len(), 2);
}

#[test]
fn test_scanner_handles_permission_denied() {
    let mock = MockPlatform::new().with_port(3000, 1234).with_error_on_pid(1234);
    let mut scanner = Scanner::new(mock);
    let ports = scanner.scan(false).unwrap();
    assert_eq!(ports.len(), 0);
}

#[test]
fn scan_sorts_by_port_and_names_the_project() {
    let mock = MockPlatform::new()
        .with_port(40000, 2000)
        .with_port(65000, 3000)
        .with_port(10, 1000)
        .with_process(1000, process(1000, "test1.exe", "test1", ProcessStatus::Healthy, 50000, 5.0, None))
        .with_process(2000, process(2000, "test2.exe", "test2", ProcessStatus::Healthy, 50000, 5.0, Some("C:\\work\\api")))
        .with_process(3000, process(3000, "test3.exe", "next dev", ProcessStatus::Healthy, 50000, 5.0, None));
    let mut scanner = Scanner::new(mock);
    let ports = scanner.scan(false).unwrap();
    let order: Vec<u16> = ports.iter().map(|p| p.port).collect();
    assert_eq!(order, vec![10, 40000, 65000]);
    assert_eq!(ports[1].project_name, Some("api".to_string()));
    assert_eq!(ports[2].framework, Some("Next.js".to_string()));
}

#[test]
fn scan_failure_of_the_port_list_is_reported() {
    let mock = MockPlatform::new().with_port(3000, 1234).with_error_on_port(3000);
    let mut scanner = Scanner::new(mock);
    let result = scanner.scan(false);
    assert!(result.is_err());
    assert_eq!(result.unwrap_err().message(), "Platform operation failed: Simulated error for port 3000");
}

#[test]
fn docker_ports_show_the_container() {
    let mock = MockPlatform::new()
        .with_port(5432, 77)
        .with_process(77, process(77, "com.docker.backend.exe", "com.docker.backend", ProcessStatus::Healthy, 1000, 0.0, None));
    let list = vec![ContainerSummary {
        names: Some(vec!["/pg".to_string()]),
        image: Some("postgres:16".to_string()),
        public_ports: Some(vec![Some(5432)]),
    }];
    let mut scanner = Scanner::with_docker_client(mock, DockerClient::from_containers(&list));
    let ports = scanner.scan(false).unwrap();
    assert_eq!(ports.len(), 1);
    assert_eq!(ports[0].project_name, Some("pg".to_string()));
    assert_eq!(ports[0].framework, Some("PostgreSQL".to_string()));
}

#[test]
fn port_details_find_the_port_or_suggest() {
    let mock = MockPlatform::new()
        .with_port(3000, 1234)
        .with_process(1234, process(1234, "node.exe", "node server.js", ProcessStatus::Healthy, 50000, 5.0, None));
    let mut scanner = Scanner::new(mock);
    let found = scanner.get_port_details(3000).unwrap();
    assert_eq!(found.pid, 1234);
    let missing = scanner.get_port_details(4000).unwrap_err();
    assert_eq!(missing.message(), "Port 4000 is not in use");
    assert!(missing.suggestion().unwrap().contains("portly list"));
}

#[test]
fn sort_keeps_equal_ports_in_order() {
    let entry = |port: u16, pid: u32| PortInfo {
        port,
        pid,
        process_name: "p".to_string(),
        status: ProcessStatus::Healthy,
        framework: None,
        project_name: None,
    };
    let sorted = sort_by_port(&vec![entry(8080, 1), entry(80, 2), entry(8080, 3), entry(22, 4)]);
    let pairs: Vec<(u16, u32)> = sorted.iter().map(|p| (p.port, p.pid)).collect();
    assert_eq!(pairs, vec![(22, 4), (80, 2), (8080, 1), (8080, 3)]);
    assert_eq!(find_port(&sorted, 8080).unwrap().pid, 1);
}

#[test]
fn command_descriptions_for_go_dotnet_and_docker() {
    assert_eq!(extract_command_description("go run main.go", "go"), "go run");
    assert_eq!(extract_command_description("dotnet watch run", "dotnet"), "dotnet watch");
    assert_eq!(extract_command_description("docker compose up", "docker"), "docker");
    assert_eq!(extract_command_description("node --inspect", "node"), "node");
}

#[test]
fn a_drive_root_names_no_project() {
    assert_eq!(project_name_of(&Some("C:\\".to_string())), None);
    assert_eq!(project_name_of(&Some("C:".to_string())), None);
    assert_eq!(project_name_of(&Some("C:\\projects\\my-app".to_string())), Some("my-app".to_string()));
    assert_eq!(project_name_of(&Some("C:\\projects\\my-app\\".to_string())), Some("my-app".to_string()));
}

#[test]
fn drive_relative_and_unc_paths_name_their_project() {
    assert_eq!(project_name_of(&Some("C:foo".to_string())), Some("foo".to_string()));
    assert_eq!(project_name_of(&Some("C:..".to_string())), None);
    assert_eq!(project_name_of(&Some("\\\\server\\share".to_string())), None);
    assert_eq!(project_name_of(&Some("\\\\server\\share\\".to_string())), None);
    assert_eq!(project_name_of(&Some("\\\\server\\share\\app".to_string())), Some("app".to_string()));
    assert_eq!(project_name_of(&Some("//server/share/app".to_string())), Some("app".to_string()));
}

#[test]
fn a_failed_listing_is_the_scan_error() {
    let mut scanner = Scanner::new(MockPlatform::new().with_port(3000, 1).with_error_on_port(3000));
    let direct = MockPlatform::new().with_port(3000, 1).with_error_on_port(3000);
    let expected = direct.get_listening_ports().unwrap_err();
    let got = scanner.scan(false).unwrap_err();
    assert_eq!(got.message(), expected.message());
}
