use pulselogic::logger::log_file_path;
use pulselogic::logger::resolve_log_dir;
use pulselogic::logger::DiagnosticLog;

#[test]
fn record_never_fails_even_for_an_unwritable_target() {
    // Resolution accepts a directory that cannot exist; recording still
    // returns normally and keeps the line.
    let dir = resolve_log_dir(Some(String::from("Z:\\no\\such\\dir")), None);
    assert_eq!(dir, "Z:\\no\\such\\dir");
    let path = log_file_path(&dir);
    assert_eq!(path, "Z:\\no\\such\\dir\\pulselogic.log");
    let mut log = DiagnosticLog::new();
    log.record("still recorded");
    assert_eq!(log.len(), 1);
    assert_eq!(log.line_at(0), "still recorded");
}

#[test]
fn n_records_give_n_lines_in_call_order() {
    let mut log = DiagnosticLog::new();
    assert_eq!(log.len(), 0);
    log.record("one");
    log.record("two");
    log.record("three");
    assert_eq!(log.len(), 3);
    assert_eq!(log.line_at(0), "one");
    assert_eq!(log.line_at(1), "two");
    assert_eq!(log.line_at(2), "three");
}

#[test]
fn record_all_appends_every_message_in_order() {
    let mut log = DiagnosticLog::new();
    log.record("head");
    let batch = vec![String::from("a"), String::from("b")];
    log.record_all(&batch);
    assert_eq!(log.len(), 3);
    assert_eq!(log.line_at(0), "head");
    assert_eq!(log.line_at(1), "a");
    assert_eq!(log.line_at(2), "b");
}

#[test]
fn log_dir_prefers_the_candidates_in_order() {
    assert_eq!(
        resolve_log_dir(Some(String::from("D:\\First")), Some(String::from("D:\\Second"))),
        "D:\\First"
    );
    assert_eq!(resolve_log_dir(None, Some(String::from("D:\\Second"))), "D:\\Second");
    assert_eq!(resolve_log_dir(None, None), "C:\\Temp");
}

#[test]
fn log_path_is_the_fixed_file_under_the_dir() {
    assert_eq!(log_file_path("C:\\Temp"), "C:\\Temp\\pulselogic.log");
}
