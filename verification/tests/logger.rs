use copilot::logger::{LogLevel, Logger};

#[test]
fn logger_starts_empty() {
    let mut logger = Logger::new();
    assert!(logger.take_all().is_empty());
}

#[test]
fn logger_keeps_entries_in_order_with_levels() {
    let mut logger = Logger::new();
    logger.info("first".to_string());
    logger.error("second".to_string());
    logger.warn("third".to_string());
    let logs = logger.take_all();
    let seen: Vec<(LogLevel, &str)> = logs.iter().map(|l| (l.level(), l.content())).collect();
    assert_eq!(
        seen,
        vec![(LogLevel::Info, "first"), (LogLevel::Error, "second"), (LogLevel::Warn, "third")]
    );
}

#[test]
fn logger_take_all_empties_the_store() {
    let mut logger = Logger::new();
    logger.info("a".to_string());
    assert_eq!(logger.take_all().len(), 1);
    assert_eq!(logger.take_all().len(), 0);
    logger.warn("b".to_string());
    let again = logger.take_all();
    assert_eq!(again.len(), 1);
    assert_eq!(again[0].content(), "b");
}

#[test]
fn log_level_names() {
    assert_eq!(LogLevel::Error.name(), "error");
    assert_eq!(LogLevel::Warn.name(), "warn");
    assert_eq!(LogLevel::Info.name(), "info");
}
