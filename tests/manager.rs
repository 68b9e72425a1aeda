use lum::manager::{RegisterError, ServiceManager, StartStep};
use lum::status::{Priority, ServiceInfo, Status};

#[test]
fn lookup_is_none_before_and_stable_after_registration() {
    let mut m: ServiceManager<ServiceInfo> = ServiceManager::new();
    assert_eq!(m.get_service("discord"), None);
    let h = m.register(ServiceInfo::new("discord", "Discord", Priority::Critical)).unwrap();
    assert_eq!(m.get_service("discord"), Some(h));
    assert_eq!(m.get_service("discord"), Some(h));
    assert_eq!(m.service(h).id, "discord");
    assert_eq!(m.get_service("other"), None);
}

#[test]
fn duplicate_id_is_refused() {
    let mut m: ServiceManager<ServiceInfo> = ServiceManager::new();
    assert_eq!(m.register(ServiceInfo::new("a", "A", Priority::Optional)), Ok(0));
    assert_eq!(
        m.register(ServiceInfo::new("a", "Again", Priority::Critical)),
        Err(RegisterError::DuplicateId)
    );
    assert_eq!(m.count(), 1);
    assert_eq!(m.service(0).name, "A");
}

#[test]
fn critical_services_start_first() {
    let mut m: ServiceManager<ServiceInfo> = ServiceManager::new();
    m.register(ServiceInfo::new("o1", "O1", Priority::Optional)).unwrap();
    m.register(ServiceInfo::new("c1", "C1", Priority::Critical)).unwrap();
    m.register(ServiceInfo::new("o2", "O2", Priority::Optional)).unwrap();
    m.register(ServiceInfo::new("c2", "C2", Priority::Critical)).unwrap();
    assert_eq!(m.start_order(), vec![1, 3, 0, 2]);
}

#[test]
fn failing_critical_service_aborts_startup() {
    let mut m: ServiceManager<ServiceInfo> = ServiceManager::new();
    let c = m.register(ServiceInfo::new("core", "Core", Priority::Critical)).unwrap();
    m.register(ServiceInfo::new("extra", "Extra", Priority::Optional)).unwrap();
    let step = m.record_start(c, Err("no token".to_string()));
    assert_eq!(
        step,
        StartStep::Abort { id: "core".to_string(), reason: "no token".to_string() }
    );
    assert_eq!(m.service(c).status, Status::RuntimeError("no token".to_string()));
}

#[test]
fn failing_optional_service_does_not_abort() {
    let mut m: ServiceManager<ServiceInfo> = ServiceManager::new();
    let c = m.register(ServiceInfo::new("core", "Core", Priority::Critical)).unwrap();
    let o = m.register(ServiceInfo::new("extra", "Extra", Priority::Optional)).unwrap();
    let mut steps = Vec::new();
    for h in m.start_order() {
        let result = if h == o { Err("down".to_string()) } else { Ok(()) };
        steps.push(m.record_start(h, result));
    }
    assert_eq!(steps, vec![StartStep::Continue, StartStep::Continue]);
    assert_eq!(m.service(c).status, Status::Started);
    assert_eq!(m.service(o).status, Status::RuntimeError("down".to_string()));
}

#[test]
fn stopping_records_each_outcome() {
    let mut m: ServiceManager<ServiceInfo> = ServiceManager::new();
    let a = m.register(ServiceInfo::new("a", "A", Priority::Critical)).unwrap();
    let b = m.register(ServiceInfo::new("b", "B", Priority::Optional)).unwrap();
    m.record_stop(a, Err("stuck".to_string()));
    m.record_stop(b, Ok(()));
    assert_eq!(m.service(a).status, Status::RuntimeError("stuck".to_string()));
    assert_eq!(m.service(b).status, Status::Stopped);
}

#[test]
fn shutdown_targets_only_started_services() {
    let mut m: ServiceManager<ServiceInfo> = ServiceManager::new();
    let a = m.register(ServiceInfo::new("a", "A", Priority::Critical)).unwrap();
    let b = m.register(ServiceInfo::new("b", "B", Priority::Optional)).unwrap();
    let c = m.register(ServiceInfo::new("c", "C", Priority::Optional)).unwrap();
    m.record_start(a, Ok(()));
    m.record_start(b, Err("down".to_string()));
    m.record_start(c, Ok(()));
    assert_eq!(m.started_handles(), vec![a, c]);
    m.update_status(c, Status::RuntimeError("late".to_string()));
    assert_eq!(m.started_handles(), vec![a]);
    assert_eq!(m.service(c).status, Status::RuntimeError("late".to_string()));
}
