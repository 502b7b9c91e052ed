use std::time::{Duration, SystemTime, UNIX_EPOCH};

use copilot::helper::logger::{seconds_since_epoch, Log, Logger};
use copilot::logger::LogLevel;

fn now() -> u64 {
    SystemTime::now().duration_since(UNIX_EPOCH).unwrap().as_secs()
}

#[test]
fn timed_logger_records_level_text_and_current_second() {
    let before = now();
    let mut logger = Logger::new();
    logger.info("up".to_string());
    logger.error("down".to_string());
    logger.warn("careful".to_string());
    let after = now();
    let logs = logger.take_all();
    assert_eq!(logs.len(), 3);
    assert_eq!((logs[0].level(), logs[0].content()), (LogLevel::Info, "up"));
    assert_eq!((logs[1].level(), logs[1].content()), (LogLevel::Error, "down"));
    assert_eq!((logs[2].level(), logs[2].content()), (LogLevel::Warn, "careful"));
    for log in &logs {
        assert!(before <= log.time() && log.time() <= after);
    }
    assert!(logger.take_all().is_empty());
}

#[test]
fn timed_logger_push_keeps_given_time() {
    let mut logger = Logger::new();
    logger.push(Log::at(LogLevel::Warn, 42, "old".to_string()));
    logger.push(Log::at(LogLevel::Info, 7, "older".to_string()));
    let logs = logger.take_all();
    assert_eq!((logs[0].time(), logs[0].content()), (42, "old"));
    assert_eq!((logs[1].time(), logs[1].level()), (7, LogLevel::Info));
}

#[test]
fn clock_reading_becomes_whole_seconds() {
    assert_eq!(seconds_since_epoch(Some(Duration::from_millis(5_999))), 5);
    assert_eq!(seconds_since_epoch(None), 0);
    let log = Log::from_reading(LogLevel::Error, Some(Duration::from_secs(1_700_000_000)), "x".to_string());
    assert_eq!((log.level(), log.time(), log.content()), (LogLevel::Error, 1_700_000_000, "x"));
    let log = Log::from_reading(LogLevel::Info, None, "before epoch".to_string());
    assert_eq!(log.time(), 0);
}
