use pulselogic::bridge::get_app_version;
use pulselogic::capability::CAPABILITY_COUNT;
use pulselogic::sequencer::Phase;
use pulselogic::sequencer::RunOutcome;
use pulselogic::sequencer::Sequencer;

#[test]
fn success_path_records_one_normal_exit_and_no_error_output() {
    let mut sequencer = Sequencer::new(false, get_app_version());
    assert_eq!(sequencer.phase(), Phase::Starting);

    let (capabilities, banner) = sequencer.start();
    assert_eq!(capabilities.len(), CAPABILITY_COUNT);
    assert_eq!(banner, "=== PulseLogic v1.0.0 starting ===");
    assert_eq!(sequencer.phase(), Phase::CapabilitiesReady);

    let (setup_line, open_inspector) = sequencer.wire_presentation();
    assert!(!open_inspector);
    assert_eq!(sequencer.phase(), Phase::PresentationRunning);

    let report = sequencer.finish(RunOutcome::Success);
    assert_eq!(report.log_line, "Application exited normally");
    assert!(report.error_line.is_none());
    assert_eq!(sequencer.phase(), Phase::Succeeded);

    let log = sequencer.log();
    assert_eq!(log.len(), 3);
    assert_eq!(log.line_at(0), banner);
    assert_eq!(log.line_at(1), setup_line);
    assert_eq!(log.line_at(2), "Application exited normally");
    let normal_exits = (0..log.len())
        .filter(|&i| log.line_at(i) == "Application exited normally")
        .count();
    assert_eq!(normal_exits, 1);
}

#[test]
fn fatal_path_reports_the_detail_to_log_and_error_stream() {
    let mut sequencer = Sequencer::new(false, get_app_version());
    let _ = sequencer.start();
    let _ = sequencer.wire_presentation();

    let report = sequencer.finish(RunOutcome::Fatal(String::from("boom")));
    assert_eq!(report.log_line, "FATAL ERROR: boom");
    assert!(report.log_line.contains("boom"));
    assert_eq!(report.error_line.as_deref(), Some("FATAL ERROR: boom"));
    assert_eq!(sequencer.phase(), Phase::Failed);

    let log = sequencer.log();
    assert_eq!(log.len(), 3);
    assert!(log.line_at(log.len() - 1).contains("boom"));
    assert_eq!(log.line_at(2), report.log_line);
}

#[test]
fn inspection_opens_only_when_developer_tooling_is_enabled() {
    let mut disabled = Sequencer::new(false, get_app_version());
    let _ = disabled.start();
    let (_, open_inspector) = disabled.wire_presentation();
    assert!(!open_inspector);

    let mut enabled = Sequencer::new(true, get_app_version());
    let _ = enabled.start();
    let (_, open_inspector) = enabled.wire_presentation();
    assert!(open_inspector);
}

#[test]
fn fatal_detail_can_be_empty() {
    let mut sequencer = Sequencer::new(false, get_app_version());
    let _ = sequencer.start();
    let _ = sequencer.wire_presentation();
    let report = sequencer.finish(RunOutcome::Fatal(String::new()));
    assert_eq!(report.log_line, "FATAL ERROR: ");
    assert_eq!(report.error_line.as_deref(), Some("FATAL ERROR: "));
}
