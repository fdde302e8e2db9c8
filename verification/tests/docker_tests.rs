use portly::docker::{ContainerSummary, DockerClient, extract_host_ports};

#[test]
fn test_detect_framework_postgres() {
    assert_eq!(DockerClient::detect_framework_from_image("postgres:14"), Some("PostgreSQL".to_string()));
}

#[test]
fn test_detect_framework_redis() {
    assert_eq!(DockerClient::detect_framework_from_image("redis:7"), Some("Redis".to_string()));
}

#[test]
fn test_detect_framework_nginx() {
    assert_eq!(DockerClient::detect_framework_from_image("nginx:latest"), Some("nginx".to_string()));
}

#[test]
fn test_detect_framework_mongo() {
    assert_eq!(DockerClient::detect_framework_from_image("mongo:5"), Some("MongoDB".to_string()));
}

#[test]
fn test_parse_docker_uptime_days() {
    assert_eq!(DockerClient::_parse_docker_uptime("Up 10 days"), Some("10d".to_string()));
}

#[test]
fn test_parse_docker_uptime_hours() {
    assert_eq!(DockerClient::_parse_docker_uptime("Up 2 hours"), Some("2h".to_string()));
}

#[test]
fn test_parse_docker_uptime_minutes() {
    assert_eq!(DockerClient::_parse_docker_uptime("Up 30 minutes"), Some("30m".to_string()));
}

#[test]
fn test_parse_docker_uptime_seconds() {
    assert_eq!(DockerClient::_parse_docker_uptime("Up 45 seconds"), Some("0m".to_string()));
}

#[test]
fn test_extract_host_ports_from_api() {
    let ports = vec![Some(5432u16), Some(3000u16)];
    let host_ports = extract_host_ports(&ports);
    assert_eq!(host_ports, vec![5432, 3000]);
}

#[test]
fn host_ports_skip_unpublished_mappings() {
    assert_eq!(extract_host_ports(&vec![None, Some(8080), None]), vec![8080]);
    assert!(extract_host_ports(&vec![]).is_empty());
}

#[test]
fn docker_uptime_refuses_other_lines() {
    assert_eq!(DockerClient::_parse_docker_uptime("Exited (0) 2 hours ago"), None);
    assert_eq!(DockerClient::_parse_docker_uptime("Up"), None);
    assert_eq!(DockerClient::_parse_docker_uptime("up 3 days"), Some("3d".to_string()));
    assert_eq!(DockerClient::_parse_docker_uptime("Up 3 Days"), None);
}

#[test]
fn image_framework_defaults_to_docker() {
    assert_eq!(DockerClient::detect_framework_from_image("myorg/service:1"), Some("Docker".to_string()));
    assert_eq!(DockerClient::detect_framework_from_image("MariaDB:10"), Some("MySQL".to_string()));
}

#[test]
fn containers_are_found_by_host_port() {
    let list = vec![
        ContainerSummary {
            names: Some(vec!["/db".to_string()]),
            image: Some("postgres:14".to_string()),
            public_ports: Some(vec![Some(5432), None]),
        },
        ContainerSummary { names: None, image: None, public_ports: Some(vec![Some(8080)]) },
    ];
    let client = DockerClient::from_containers(&list);
    let db = client.get_container_info(5432).unwrap();
    assert_eq!(db.name, "db");
    assert_eq!(db.image, "postgres:14");
    let other = client.get_container_info(8080).unwrap();
    assert_eq!(other.name, "unknown");
    assert_eq!(other.image, "unknown");
    assert!(client.get_container_info(3000).is_none());
    assert!(DockerClient::empty().get_container_info(5432).is_none());
}
