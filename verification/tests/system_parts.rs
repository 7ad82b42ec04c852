use marwan_factories::config::{CacheType, Environment, LogLevel, SystemConfig};
use marwan_factories::get_system_info;
use marwan_factories::mhos::{
    determine_quality_status, AIAssistant, AlertSeverity, DashboardLayout, OptimizationArea,
    QualityStatus, WidgetPosition, WidgetType,
};

#[test]
fn test_system_info_defaults() {
    let info = get_system_info();
    assert_eq!(info.version, "3.0.0");
    assert_eq!(info.name, "Marwan Hub Factories");
    assert_eq!(info.rust_version, "unknown");
    assert!(info.build_time.is_empty());
    assert!(!info.description.is_empty());
}

#[test]
fn test_system_config_defaults() {
    let config = SystemConfig::default();
    assert_eq!(config.name, "Marwan Hub Factories");
    assert_eq!(config.version, "3.0.0");
    assert_eq!(config.environment, Environment::Development);
    assert_eq!(config.data_dir, "./data");
    assert_eq!(config.cache.cache_type, CacheType::Memory);
    assert!(config.cache.redis_url.is_none());
    assert_eq!(config.cache.ttl, 3600);
    assert!(config.security.enable_auth);
    assert_eq!(config.security.rate_limit, 100);
    assert_eq!(config.security.rate_window, 60);
    assert_eq!(config.logging.level, LogLevel::Info);
    assert_eq!(config.logging.max_size, 100);
    assert_eq!(config.logging.max_files, 10);
}

#[test]
fn test_ai_assistant_knowledge() {
    let assistant = AIAssistant::new();
    let advice = assistant.get_advice("optimization").expect("preloaded topic");
    assert!(advice.contains("تحسين الخوارزميات"));
    assert!(assistant.get_advice("quality").is_some());
    assert!(assistant.get_advice("troubleshooting").is_some());
    assert!(assistant.get_advice("cooking").is_none());
}

#[test]
fn test_ai_assistant_learn_overrides() {
    let mut assistant = AIAssistant::new();
    assistant.learn("quality".to_string(), "new advice".to_string());
    assert_eq!(assistant.get_advice("quality"), Some("new advice".to_string()));
    assistant.learn("cooking".to_string(), "add salt".to_string());
    assert_eq!(assistant.get_advice("cooking"), Some("add salt".to_string()));
}

#[test]
fn test_alert_severity_levels() {
    assert_eq!(AlertSeverity::Info.severity_level(), "معلومات");
    assert_eq!(AlertSeverity::Warning.severity_level(), "تحذير");
    assert_eq!(AlertSeverity::Error.severity_level(), "خطأ");
    assert_eq!(AlertSeverity::Critical.severity_level(), "حرج");
}

#[test]
fn test_quality_status_classification() {
    // 0.96 overall with every gate passed: excellent
    assert_eq!(determine_quality_status(9_600, 20, 20), QualityStatus::Excellent);
    // same score, one gate short of the 0.95 pass rate: good
    assert_eq!(determine_quality_status(9_600, 19, 20), QualityStatus::Good);
    assert_eq!(determine_quality_status(8_600, 18, 20), QualityStatus::Good);
    assert_eq!(determine_quality_status(7_100, 15, 20), QualityStatus::Warning);
    assert_eq!(determine_quality_status(5_000, 10, 20), QualityStatus::Failed);
    // boundary values are not above the bar
    assert_eq!(determine_quality_status(9_500, 20, 20), QualityStatus::Good);
    assert_eq!(determine_quality_status(7_000, 20, 20), QualityStatus::Failed);
    // no gates at all: failed, never a division error
    assert_eq!(determine_quality_status(9_999, 0, 0), QualityStatus::Failed);
}

#[test]
fn test_dashboard_layout_records() {
    let layout = DashboardLayout {
        columns: 12,
        rows: 8,
        widgets: vec![WidgetPosition {
            widget_id: "performance_chart".to_string(),
            col: 0,
            row: 0,
            width: 6,
            height: 4,
        }],
    };
    assert_eq!(layout.widgets.len(), 1);
    assert_eq!(layout.widgets[0].width, 6);
    assert_eq!(WidgetType::QualityGauge, WidgetType::QualityGauge);
    assert_ne!(OptimizationArea::Memory, OptimizationArea::Quality);
}
