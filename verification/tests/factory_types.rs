use marwan_factories::components;
use marwan_factories::components::ComponentStatus;
use marwan_factories::factory::FactoryError;
use marwan_factories::components::OperationResult;
use marwan_factories::factory::{FactoryStatus, FactoryType, RequestPriority};

#[test]
fn test_factory_type_display() {
    assert_eq!(FactoryType::Education.display_name(), "مصنع التعليم");
    assert!(FactoryType::Education.description().contains("التعليمي"));
}

#[test]
fn test_request_priority() {
    assert_eq!(RequestPriority::Low.value(), 1);
    assert_eq!(RequestPriority::Critical.value(), 4);
}

#[test]
fn test_factory_status() {
    assert!(FactoryStatus::Ready.is_operational());
    assert!(!FactoryStatus::Error("test".to_string()).is_operational());
}

#[test]
fn test_factory_type_conversion() {
    assert_eq!(components::FactoryType::Education.as_str(), "education");
    assert_eq!(
        components::FactoryType::from_str("education"),
        Some(components::FactoryType::Education)
    );
    assert_eq!(
        components::FactoryType::from_str("EDUCATION"),
        Some(components::FactoryType::Education)
    );
    assert_eq!(components::FactoryType::from_str("unknown"), None);
}

#[test]
fn test_generate_id() {
    let id = components::generate_id("test");
    assert!(id.starts_with("test_"));
    assert_eq!(id.len(), "test_xxxxxxxx".len());
}

#[test]
fn test_operation_result() {
    let success = OperationResult::success("test", 100);
    assert!(success.success);
    assert_eq!(success.data, Some("test"));
    assert!(success.error.is_none());

    let error = OperationResult::<String>::error("test error".to_string(), 50);
    assert!(!error.success);
    assert!(error.data.is_none());
    assert_eq!(error.error, Some("test error".to_string()));
}

#[test]
fn test_factory_type_shorthand_conversion() {
    assert_eq!(
        components::FactoryType::from_str("TeCh"),
        Some(components::FactoryType::Technology)
    );
    assert_eq!(
        components::FactoryType::from_str("corp"),
        Some(components::FactoryType::Corporate)
    );
    assert_eq!(
        components::FactoryType::from_str("cre"),
        Some(components::FactoryType::Creative)
    );
    assert_eq!(components::FactoryType::from_str(""), None);
    assert_eq!(components::FactoryType::from_str("educationn"), None);
}

#[test]
fn test_factory_error_messages() {
    assert_eq!(
        FactoryError::InvalidRequest("x".to_string()).message(),
        "طلب غير صالح: x"
    );
    assert_eq!(
        FactoryError::InitializationFailed("y".to_string()).message(),
        "فشل التهيئة: y"
    );
    assert_eq!(FactoryError::Timeout.message(), "انتهى وقت الانتظار");
    assert_eq!(
        FactoryError::Unknown("z".to_string()).message(),
        "خطأ غير معروف: z"
    );
}

#[test]
fn test_factory_status_names() {
    assert_eq!(FactoryStatus::Maintenance.as_str(), "maintenance");
    assert_eq!(FactoryStatus::Error("boom".to_string()).as_str(), "error");
    assert!(!FactoryStatus::Paused.is_operational());
    assert!(FactoryStatus::Processing.is_operational());
}

#[test]
fn test_component_status_names() {
    assert_eq!(ComponentStatus::Ready.as_str(), "ready");
    assert_eq!(ComponentStatus::Shutdown.as_str(), "shutdown");
}

#[test]
fn test_generate_id_distinct() {
    let a = components::generate_id("qr");
    let b = components::generate_id("qr");
    assert_eq!(a.len(), 11);
    assert_eq!(b.len(), 11);
    // two fresh identifiers from the random source should differ
    assert_ne!(a, b);
}
