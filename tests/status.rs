use lum::status::{Priority, ServiceInfo, Status};

#[test]
fn status_texts() {
    assert_eq!(Status::NotStarted.describe(), "Not started");
    assert_eq!(Status::Started.describe(), "Started");
    assert_eq!(Status::Stopped.describe(), "Stopped");
    assert_eq!(Status::RuntimeError("boom".to_string()).describe(), "Runtime error: boom");
}

#[test]
fn lifecycle_transitions() {
    let mut info = ServiceInfo::new("a", "A", Priority::Critical);
    assert_eq!(info.status, Status::NotStarted);
    assert!(!info.transition(Status::Started));
    assert_eq!(info.status, Status::NotStarted);
    assert!(info.transition(Status::Starting));
    assert!(info.transition(Status::Started));
    assert!(info.transition(Status::RuntimeError("x".to_string())));
    assert!(!info.transition(Status::Stopping));
    assert_eq!(info.status, Status::RuntimeError("x".to_string()));
}
