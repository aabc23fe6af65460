use dr_ones_network::{
    disable_logging, enable_logging, has_log_file, is_logging_enabled, redirect_logs_to_file,
    LogConfig,
};

#[test]
fn test_enable_disable() {
    let mut config = LogConfig::default();
    enable_logging(&mut config);
    assert!(is_logging_enabled(&config));
    disable_logging(&mut config);
    assert!(!is_logging_enabled(&config));
    assert!(!has_log_file(&config));
}

#[test]
fn test_redirect_marks_file_attached() {
    let mut config = LogConfig::default();
    redirect_logs_to_file(&mut config);
    assert!(!is_logging_enabled(&config));
    assert!(has_log_file(&config));
}

#[test]
fn test_enable_detaches_file() {
    let mut config = LogConfig::default();
    redirect_logs_to_file(&mut config);
    enable_logging(&mut config);
    assert!(is_logging_enabled(&config));
    assert!(!has_log_file(&config));
}

#[test]
fn test_disable_keeps_file() {
    let mut config = LogConfig::default();
    redirect_logs_to_file(&mut config);
    disable_logging(&mut config);
    assert!(!is_logging_enabled(&config));
    assert!(has_log_file(&config));
}
