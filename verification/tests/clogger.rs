use corg::clogger::ClogLevel;

#[test]
fn thresholds_drop_lower_severities() {
    assert!(!ClogLevel::Info.should_log(ClogLevel::Debug));
    assert!(!ClogLevel::Success.should_log(ClogLevel::Debug));
    assert!(!ClogLevel::Success.should_log(ClogLevel::Info));
    assert!(!ClogLevel::Warning.should_log(ClogLevel::Debug));
    assert!(!ClogLevel::Warning.should_log(ClogLevel::Info));
    assert!(!ClogLevel::Warning.should_log(ClogLevel::Success));
    assert!(!ClogLevel::Error.should_log(ClogLevel::Debug));
    assert!(!ClogLevel::Error.should_log(ClogLevel::Info));
    assert!(!ClogLevel::Error.should_log(ClogLevel::Success));
    assert!(!ClogLevel::Error.should_log(ClogLevel::Warning));
}

#[test]
fn equal_or_higher_severities_pass() {
    assert!(ClogLevel::Info.should_log(ClogLevel::Info));
    assert!(ClogLevel::Info.should_log(ClogLevel::Error));
    assert!(ClogLevel::Warning.should_log(ClogLevel::Warning));
    assert!(ClogLevel::Error.should_log(ClogLevel::Error));
}

#[test]
fn trace_and_announce_messages_always_pass() {
    assert!(ClogLevel::Error.should_log(ClogLevel::Trace));
    assert!(ClogLevel::Error.should_log(ClogLevel::Announce));
    assert!(ClogLevel::Warning.should_log(ClogLevel::Announce));
}

#[test]
fn permissive_thresholds_pass_everything() {
    assert!(ClogLevel::Debug.should_log(ClogLevel::Debug));
    assert!(ClogLevel::Trace.should_log(ClogLevel::Debug));
    assert!(ClogLevel::Announce.should_log(ClogLevel::Info));
}

#[test]
fn level_names() {
    assert_eq!(ClogLevel::Debug.to_string(), "debug".to_string());
    assert_eq!(ClogLevel::Info.to_string(), "info".to_string());
    assert_eq!(ClogLevel::Success.to_string(), "success".to_string());
    assert_eq!(ClogLevel::Warning.to_string(), "warning".to_string());
    assert_eq!(ClogLevel::Error.to_string(), "error".to_string());
    assert_eq!(ClogLevel::Trace.to_string(), "trace".to_string());
    assert_eq!(ClogLevel::Announce.to_string(), "announce".to_string());
}
