use portly::framework::{FrameworkDetector, framework_from_markers, framework_from_package_text};
use portly::platform::MockPlatform;

#[test]
fn test_detect_from_command_nextjs() {
    let detector = FrameworkDetector::new();
    assert_eq!(detector.detect_from_command("node /path/to/next dev"), Some("Next.js".to_string()));
}

#[test]
fn test_detect_from_command_vite() {
    let detector = FrameworkDetector::new();
    assert_eq!(detector.detect_from_command("node vite --port 3000"), Some("Vite".to_string()));
}

#[test]
fn test_detect_from_command_django() {
    let detector = FrameworkDetector::new();
    assert_eq!(detector.detect_from_command("python manage.py runserver"), Some("Django".to_string()));
}

#[test]
fn test_detect_from_command_rust() {
    let detector = FrameworkDetector::new();
    assert_eq!(detector.detect_from_command("cargo run --bin server"), Some("Rust".to_string()));
}

#[test]
fn test_detect_from_command_go() {
    let detector = FrameworkDetector::new();
    assert_eq!(detector.detect_from_command("go run main.go"), Some("Go".to_string()));
}

#[test]
fn test_detect_docker_postgres() {
    let detector = FrameworkDetector::new();
    assert_eq!(detector.detect_docker_framework("docker run postgres:14"), Some("PostgreSQL".to_string()));
}

#[test]
fn test_detect_docker_redis() {
    let detector = FrameworkDetector::new();
    assert_eq!(detector.detect_docker_framework("docker run redis:latest"), Some("Redis".to_string()));
}

#[test]
fn test_detect_from_command_none() {
    let detector = FrameworkDetector::new();
    assert_eq!(detector.detect_from_command("unknown command"), None);
}

#[test]
fn package_json_decides_the_directory_framework() {
    let platform = MockPlatform::new()
        .with_file("C:\\projects\\app\\package.json", "{\"dependencies\": {\"react\": \"18\"}, \"devDependencies\": {\"vite\": \"5\"}}");
    let mut detector = FrameworkDetector::new();
    assert_eq!(detector.detect(&platform, "node server.js", Some("C:\\projects\\app\\src")), Some("React".to_string()));
}

#[test]
fn package_json_without_known_dependencies_is_node() {
    let platform = MockPlatform::new().with_file("C:\\app\\package.json", "{\"dependencies\": {}}");
    let mut detector = FrameworkDetector::new();
    assert_eq!(detector.detect(&platform, "node index.js", Some("C:\\app")), Some("Node.js".to_string()));
    let broken = MockPlatform::new()
        .with_file("C:\\app\\package.json", "not json")
        .with_file("C:\\app\\Cargo.toml", "[package]");
    let mut detector = FrameworkDetector::new();
    assert_eq!(detector.detect(&broken, "app.exe", Some("C:\\app")), Some("Rust".to_string()));
}

#[test]
fn marker_files_name_the_framework() {
    let platform = MockPlatform::new().with_file("C:\\svc\\go.mod", "module svc");
    let mut detector = FrameworkDetector::new();
    assert_eq!(detector.detect(&platform, "svc.exe", Some("C:\\svc\\cmd\\api")), Some("Go".to_string()));
    let mut detector = FrameworkDetector::new();
    assert_eq!(detector.detect(&MockPlatform::new(), "svc.exe", Some("C:\\svc")), None);
}

#[test]
fn command_decides_before_the_directory() {
    let platform = MockPlatform::new().with_file("C:\\svc\\go.mod", "module svc");
    let mut detector = FrameworkDetector::new();
    assert_eq!(detector.detect(&platform, "cargo run", Some("C:\\svc")), Some("Rust".to_string()));
    assert_eq!(detector.detect(&platform, "docker run nginx", None), Some("nginx".to_string()));
}

#[test]
fn answers_for_a_directory_are_cached() {
    let platform = MockPlatform::new().with_file("C:\\svc\\go.mod", "module svc");
    let mut detector = FrameworkDetector::new();
    let first = detector.detect(&platform, "svc.exe", Some("C:\\svc"));
    let second = detector.detect(&MockPlatform::new(), "svc.exe", Some("C:\\svc"));
    assert_eq!(first, Some("Go".to_string()));
    assert_eq!(second, first);
}

#[test]
fn detection_without_directory_is_consistent() {
    let mut d1 = FrameworkDetector::new();
    let mut d2 = FrameworkDetector::new();
    let p = MockPlatform::new();
    for command in ["next dev", "python app.py", "", "uvicorn main:app"] {
        assert_eq!(d1.detect(&p, command, None), d2.detect(&p, command, None));
    }
}

#[test]
fn package_text_decides_by_dependencies() {
    assert_eq!(framework_from_package_text("{\"dependencies\": {\"next\": \"14\"}}"), Some("Next.js".to_string()));
    assert_eq!(framework_from_package_text("{\"devDependencies\": {\"vite\": \"5\"}}"), None);
    assert_eq!(framework_from_package_text("garbage"), None);
    assert_eq!(
        framework_from_package_text("{\"dependencies\": {}, \"devDependencies\": {\"@angular/cli\": \"17\"}}"),
        Some("Angular".to_string())
    );
    assert_eq!(framework_from_package_text("{\"dependencies\": \"none\"}"), Some("Node.js".to_string()));
}

#[test]
fn marker_answers_decide_in_order_after_package_json() {
    assert_eq!(framework_from_markers(Some("React".to_string()), &vec![true]), Some("React".to_string()));
    assert_eq!(framework_from_markers(None, &vec![true]), Some("Rust".to_string()));
    assert_eq!(framework_from_markers(None, &vec![false, false, true]), Some("Django".to_string()));
    assert_eq!(framework_from_markers(None, &vec![false, false, false, false, false, true]), Some("PHP".to_string()));
    assert_eq!(framework_from_markers(None, &vec![false; 6]), None);
    assert_eq!(framework_from_markers(None, &vec![]), None);
}

#[test]
fn the_first_marker_file_wins() {
    let platform = MockPlatform::new()
        .with_file("C:\\app\\manage.py", "")
        .with_file("C:\\app\\Cargo.toml", "[package]");
    let mut detector = FrameworkDetector::new();
    assert_eq!(detector.detect_from_directory(&platform, "C:\\app"), Some("Rust".to_string()));
}

#[test]
fn the_nearest_project_root_is_found() {
    let platform = MockPlatform::new()
        .with_file("C:\\work\\go.mod", "module work")
        .with_file("C:\\work\\svc\\Cargo.toml", "[package]");
    let mut detector = FrameworkDetector::new();
    let start: Vec<char> = "C:\\work\\svc\\src".chars().collect();
    let root: String = detector.find_project_root(&platform, &start).unwrap().into_iter().collect();
    assert_eq!(root, "C:\\work\\svc\\");
    let none: Vec<char> = "C:\\elsewhere".chars().collect();
    assert_eq!(detector.find_project_root(&platform, &none), None);
}

#[test]
fn command_matching_ignores_case() {
    let detector = FrameworkDetector::new();
    for command in ["NODE /path/to/NEXT dev", "Python Manage.py runserver", "DOCKER run Postgres", "Cargo Run"] {
        let lowered = command.to_lowercase();
        assert_eq!(detector.detect_from_command(command), detector.detect_from_command(&lowered));
    }
    assert_eq!(detector.detect_from_command("DOCKER run Postgres"), Some("PostgreSQL".to_string()));
}
