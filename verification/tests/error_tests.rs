use portly::error::PortlyError;

#[test]
fn test_port_not_found_without_suggestion() {
    let error = PortlyError::PortNotFound { port: 8080, suggestion: None };
    assert_eq!(error.message(), "Port 8080 is not in use");
    assert_eq!(error.suggestion(), None);
}

#[test]
fn test_port_not_found_with_suggestion() {
    let error = PortlyError::PortNotFound {
        port: 8080,
        suggestion: Some("Try running 'portly list' to see active ports".to_string()),
    };
    assert_eq!(error.message(), "Port 8080 is not in use");
    assert_eq!(error.suggestion(), Some("Try running 'portly list' to see active ports"));
}

#[test]
fn test_process_not_found_without_suggestion() {
    let error = PortlyError::ProcessNotFound { pid: 1234, suggestion: None };
    assert_eq!(error.message(), "Process 1234 not found");
    assert_eq!(error.suggestion(), None);
}

#[test]
fn test_process_not_found_with_suggestion() {
    let error = PortlyError::ProcessNotFound {
        pid: 1234,
        suggestion: Some("The process may have already exited".to_string()),
    };
    assert_eq!(error.message(), "Process 1234 not found");
    assert_eq!(error.suggestion(), Some("The process may have already exited"));
}

#[test]
fn test_platform_error_has_no_suggestion() {
    let error = PortlyError::PlatformError("System call failed".to_string());
    assert_eq!(error.suggestion(), None);
}

#[test]
fn test_io_error_has_no_suggestion() {
    let error = PortlyError::IoError(std::io::Error::new(std::io::ErrorKind::NotFound, "file not found"));
    assert_eq!(error.suggestion(), None);
}

#[test]
fn platform_error_message_names_the_failure() {
    let error = PortlyError::PlatformError("System call failed".to_string());
    assert_eq!(error.message(), "Platform operation failed: System call failed");
}

#[test]
fn io_error_message_carries_the_io_text() {
    let error = PortlyError::IoError(std::io::Error::new(std::io::ErrorKind::NotFound, "file not found"));
    assert_eq!(error.message(), "IO error: file not found");
}
