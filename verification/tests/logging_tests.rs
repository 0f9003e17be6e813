use pwa_marketplace::logging::{LogBuffer, LogLevel, LoggerConfig};

fn config(level: LogLevel, buffer_size: usize) -> LoggerConfig {
    LoggerConfig {
        level,
        log_to_file: true,
        log_to_console: true,
        file_path: "test.log".to_string(),
        max_file_size: 10 * 1024 * 1024,
        max_files: 5,
        buffer_size,
        flush_interval_ms: 5000,
        enable_colors: true,
    }
}

#[test]
fn test_log_level_ordering() {
    let logger = LogBuffer::new(&config(LogLevel::Info, 1000));

    assert!(logger.should_log(&LogLevel::Error));
    assert!(logger.should_log(&LogLevel::Warn));
    assert!(logger.should_log(&LogLevel::Info));
    assert!(!logger.should_log(&LogLevel::Debug));
    assert!(!logger.should_log(&LogLevel::Trace));
}

#[test]
fn test_log_levels() {
    let mut logger = LogBuffer::new(&config(LogLevel::Warn, 1000));

    logger.log(LogLevel::Debug, "test", "Debug message", 0); // Filtered out.
    logger.log(LogLevel::Warn, "test", "Warning message", 1);
    logger.log(LogLevel::Error, "test", "Error message", 2);

    let logs = logger.get_recent_logs(10);
    assert_eq!(logs.len(), 2); // Only warn and error.
    assert_eq!(logs[0].message, "Warning message");
    assert_eq!(logs[1].message, "Error message");
}

#[test]
fn test_level_names_and_colors() {
    assert_eq!(LogLevel::Error.to_str(), "ERROR");
    assert_eq!(LogLevel::Warn.to_str(), "WARN");
    assert_eq!(LogLevel::Info.to_str(), "INFO");
    assert_eq!(LogLevel::Debug.to_str(), "DEBUG");
    assert_eq!(LogLevel::Trace.to_str(), "TRACE");
    assert_eq!(LogLevel::Error.color(), "\x1b[31m");
    assert_eq!(LogLevel::Warn.color(), "\x1b[33m");
    assert_eq!(LogLevel::Info.color(), "\x1b[32m");
    assert_eq!(LogLevel::Debug.color(), "\x1b[36m");
    assert_eq!(LogLevel::Trace.color(), "\x1b[37m");
}

#[test]
fn test_buffer_evicts_oldest_when_full() {
    let mut logger = LogBuffer::new(&config(LogLevel::Trace, 2));
    logger.log(LogLevel::Info, "t", "first", 1);
    logger.log(LogLevel::Info, "t", "second", 2);
    logger.log(LogLevel::Info, "t", "third", 3);
    let logs = logger.get_recent_logs(10);
    assert_eq!(logs.len(), 2);
    assert_eq!(logs[0].message, "second");
    assert_eq!(logs[1].message, "third");
}

#[test]
fn test_get_recent_logs_limits_from_the_end() {
    let mut logger = LogBuffer::new(&config(LogLevel::Trace, 100));
    for i in 0..5u64 {
        logger.log(LogLevel::Info, "t", &format!("m{}", i), i);
    }
    let logs = logger.get_recent_logs(2);
    assert_eq!(logs.len(), 2);
    assert_eq!(logs[0].message, "m3");
    assert_eq!(logs[1].message, "m4");
}

#[test]
fn test_clear_buffer() {
    let mut logger = LogBuffer::new(&config(LogLevel::Trace, 100));
    logger.log(LogLevel::Info, "t", "something", 1);
    logger.clear_buffer();
    assert!(logger.get_recent_logs(10).is_empty());
}
