use send_to_vrc::app_data::AppData;
use send_to_vrc::config::Config;
use send_to_vrc::error::AppError;

#[test]
fn config_set_then_get() {
    let mut c = Config::new("/tmp/config.ini".to_string());
    assert_eq!(c.get("theme"), None);
    c.set("theme".to_string(), "dark".to_string());
    assert_eq!(c.get("theme"), Some("dark"));
    c.set("theme".to_string(), "light".to_string());
    assert_eq!(c.get("theme"), Some("light"));
    assert_eq!(c.entries().len(), 1);
    c.set("lang".to_string(), "ja".to_string());
    assert_eq!(c.get("lang"), Some("ja"));
    assert_eq!(c.get("theme"), Some("light"));
    assert_eq!(c.path(), "/tmp/config.ini");
}

#[test]
fn config_from_entries_keeps_the_last_value() {
    let entries = vec![
        ("a".to_string(), "1".to_string()),
        ("b".to_string(), "2".to_string()),
        ("a".to_string(), "3".to_string()),
    ];
    let c = Config::from_entries("p".to_string(), &entries);
    assert_eq!(c.get("a"), Some("3"));
    assert_eq!(c.get("b"), Some("2"));
    assert_eq!(c.entries().len(), 2);
}

#[test]
fn app_data_health_follows_config_loading() {
    let healthy = AppData::from_config(Ok(Config::new("p".to_string())));
    assert!(healthy.is_healthy());
    healthy
        .lock_config()
        .set("k".to_string(), "v".to_string());
    assert_eq!(healthy.config().lock().unwrap().get("k"), Some("v"));
    let broken = AppData::from_config(Err(AppError::ConfigContents("bad".to_string())));
    assert!(!broken.is_healthy());
}
