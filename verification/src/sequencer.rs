//! Bootstrap sequencer: the ordered lifecycle of one process run.
//!
//! The sequencer drives `Starting -> CapabilitiesReady ->
//! PresentationRunning -> {Succeeded, Failed}`: it logs the startup
//! banner, initializes the capability registry, wires the command bridge,
//! decides whether the inspection surface opens, and turns the
//! presentation runtime's terminal result into the final log entry and,
//! on a fatal outcome, a line for the process error stream. The blocking
//! presentation loop itself is an opaque collaborator: the host runs it
//! between the wiring step and the exit step and hands its result back.

use vstd::prelude::*;
use vstd::string::*;

use crate::capability::{spec_initialized_registry, Capability};
use crate::capability::initialize_all;
use crate::logger::DiagnosticLog;

verus! {

/// Lifecycle phase of the bootstrap sequencer.
#[derive(Clone, Copy, PartialEq, Eq, Structural, Debug)]
pub enum Phase {
    /// Process entry: nothing initialized yet.
    Starting,
    /// The capability registry has been initialized.
    CapabilitiesReady,
    /// Control has been handed to the presentation runtime.
    PresentationRunning,
    /// The presentation runtime returned normally.
    Succeeded,
    /// The presentation runtime reported a fatal error.
    Failed,
}

/// Terminal result reported by the presentation runtime.
pub enum RunOutcome {
    /// The user session ended normally.
    Success,
    /// The runtime failed; the detail is its human-readable message.
    Fatal(String),
}

/// What the host must do after the run ended.
pub struct ExitReport {
    /// The diagnostic line recorded for the outcome.
    pub log_line: String,
    /// A line for the process error stream; `None` on a normal exit.
    pub error_line: Option<String>,
}

/// The sequencer as the contracts see it: phase, configuration, and the
/// diagnostic lines recorded so far.
#[verifier::ext_equal]
pub struct SequencerModel {
    /// Current lifecycle phase.
    pub phase: Phase,
    /// Whether developer tooling (the inspection surface) is enabled.
    pub devtools: bool,
    /// The build-time version string.
    pub version: Seq<char>,
    /// The diagnostic lines recorded so far, oldest first.
    pub lines: Seq<Seq<char>>,
}

/// The startup banner recorded first in every run.
pub open spec fn spec_banner(version: Seq<char>) -> Seq<char> {
    "=== PulseLogic v"@ + version + " starting ==="@
}

/// The line recorded once setup is complete and the window is visible.
pub open spec fn spec_setup_line() -> Seq<char> {
    "Setup complete — window is now visible"@
}

/// The line recorded on a normal exit.
pub open spec fn spec_normal_exit_line() -> Seq<char> {
    "Application exited normally"@
}

/// The prefix of the line recorded on a fatal exit.
pub open spec fn spec_fatal_prefix() -> Seq<char> {
    "FATAL ERROR: "@
}

/// The line recorded on a fatal exit: the fatal prefix followed by the
/// runtime's error detail.
pub open spec fn spec_fatal_line(detail: Seq<char>) -> Seq<char> {
    spec_fatal_prefix() + detail
}

/// The startup step: record the banner and initialize the registry.
pub open spec fn spec_start(m: SequencerModel) -> SequencerModel {
    SequencerModel {
        phase: Phase::CapabilitiesReady,
        lines: m.lines.push(spec_banner(m.version)),
        ..m
    }
}

/// The wiring step: record the setup line, hand control to the
/// presentation runtime, and say whether the inspection surface opens.
/// It opens exactly when developer tooling is enabled.
pub open spec fn spec_wire(m: SequencerModel) -> (SequencerModel, bool) {
    (
        SequencerModel {
            phase: Phase::PresentationRunning,
            lines: m.lines.push(spec_setup_line()),
            ..m
        },
        m.devtools,
    )
}

/// The exit step on a normal return: record the normal-exit line.
pub open spec fn spec_finish_success(m: SequencerModel) -> SequencerModel {
    SequencerModel { phase: Phase::Succeeded, lines: m.lines.push(spec_normal_exit_line()), ..m }
}

/// The exit step on a fatal error: record the fatal line.
pub open spec fn spec_finish_fatal(m: SequencerModel, detail: Seq<char>) -> SequencerModel {
    SequencerModel { phase: Phase::Failed, lines: m.lines.push(spec_fatal_line(detail)), ..m }
}

/// The bootstrap sequencer. It owns the in-memory diagnostic log and the
/// startup configuration for the lifetime of the process.
pub struct Sequencer {
    phase: Phase,
    devtools: bool,
    version: String,
    log: DiagnosticLog,
}

impl Sequencer {
    /// The model this sequencer currently denotes.
    pub closed spec fn model(self) -> SequencerModel {
        SequencerModel {
            phase: self.phase,
            devtools: self.devtools,
            version: self.version@,
            lines: self.log.lines(),
        }
    }

    /// A fresh sequencer at process entry. Developer tooling is decided
    /// once, here, from the build profile; nothing is logged yet.
    pub fn new(devtools: bool, version: String) -> (sequencer: Sequencer)
        ensures
            sequencer.model() == (SequencerModel {
                phase: Phase::Starting,
                devtools,
                version: version@,
                lines: Seq::<Seq<char>>::empty(),
            }),
    {
        let sequencer = Sequencer { phase: Phase::Starting, devtools, version, log: DiagnosticLog::new() };
        proof {
            assert(sequencer.model() =~= (SequencerModel {
                phase: Phase::Starting,
                devtools: sequencer.devtools,
                version: sequencer.version@,
                lines: Seq::<Seq<char>>::empty(),
            }));
        }
        sequencer
    }

    /// Current lifecycle phase.
    pub fn phase(&self) -> (phase: Phase)
        ensures
            phase == self.model().phase,
    {
        self.phase
    }

    /// The diagnostic log recorded so far.
    pub fn log(&self) -> (log: &DiagnosticLog)
        ensures
            log.lines() == self.model().lines,
    {
        &self.log
    }

    /// Startup: records the versioned banner, then initializes every
    /// capability module. Returns the initialized registry and the
    /// banner line for the host's file sink.
    pub fn start(&mut self) -> (r: (Vec<Capability>, String))
        requires
            old(self).model().phase == Phase::Starting,
        ensures
            final(self).model() == spec_start(old(self).model()),
            r.0@ == spec_initialized_registry(),
            r.1@ == spec_banner(old(self).model().version),
    {
        let mut banner = String::from_str("=== PulseLogic v");
        banner.append(self.version.as_str());
        banner.append(" starting ===");
        self.log.record(banner.as_str());
        let capabilities = initialize_all();
        self.phase = Phase::CapabilitiesReady;
        proof {
            assert(self.model() =~= spec_start(old(self).model()));
        }
        (capabilities, banner)
    }

    /// Wiring: records the setup line, moves to the presentation phase,
    /// and says whether the host must open the inspection surface on the
    /// primary window. The surface opens exactly when developer tooling
    /// is enabled, so it can never open in a build that disabled it.
    pub fn wire_presentation(&mut self) -> (r: (String, bool))
        requires
            old(self).model().phase == Phase::CapabilitiesReady,
        ensures
            final(self).model() == spec_wire(old(self).model()).0,
            r.0@ == spec_setup_line(),
            r.1 == spec_wire(old(self).model()).1,
            r.1 == old(self).model().devtools,
    {
        let setup_line = String::from_str("Setup complete — window is now visible");
        self.log.record(setup_line.as_str());
        self.phase = Phase::PresentationRunning;
        proof {
            assert(self.model() =~= spec_wire(old(self).model()).0);
        }
        (setup_line, self.devtools)
    }

    /// Exit handling: turns the presentation runtime's terminal result
    /// into the final diagnostic entry. A normal exit records the
    /// normal-exit line and sends nothing to the error stream; a fatal
    /// outcome records the fatal line, which carries the error detail,
    /// and hands the same line to the error stream.
    pub fn finish(&mut self, outcome: RunOutcome) -> (report: ExitReport)
        requires
            old(self).model().phase == Phase::PresentationRunning,
        ensures
            match outcome {
                RunOutcome::Success => {
                    &&& final(self).model() == spec_finish_success(old(self).model())
                    &&& report.log_line@ == spec_normal_exit_line()
                    &&& report.error_line is None
                },
                RunOutcome::Fatal(detail) => {
                    &&& final(self).model() == spec_finish_fatal(old(self).model(), detail@)
                    &&& report.log_line@ == spec_fatal_line(detail@)
                    &&& report.error_line matches Some(line) && line@ == spec_fatal_line(detail@)
                },
            },
    {
        match outcome {
            RunOutcome::Success => {
                let line = String::from_str("Application exited normally");
                self.log.record(line.as_str());
                self.phase = Phase::Succeeded;
                proof {
                    assert(self.model() =~= spec_finish_success(old(self).model()));
                }
                ExitReport { log_line: line, error_line: None }
            },
            RunOutcome::Fatal(detail) => {
                let mut line = String::from_str("FATAL ERROR: ");
                line.append(detail.as_str());
                self.log.record(line.as_str());
                self.phase = Phase::Failed;
                let error_line = line.clone();
                proof {
                    assert(self.model() =~= spec_finish_fatal(old(self).model(), detail@));
                }
                ExitReport { log_line: line, error_line: Some(error_line) }
            },
        }
    }
}

/// A normal exit records exactly one new line, the normal-exit message:
/// every earlier line is kept unchanged and nothing else is appended.
pub proof fn lemma_success_exit_logs_once(m: SequencerModel)
    ensures
        spec_finish_success(m).lines.len() == m.lines.len() + 1,
        spec_finish_success(m).lines.last() == spec_normal_exit_line(),
        spec_finish_success(m).lines.subrange(0, m.lines.len() as int) == m.lines,
{
    assert(spec_finish_success(m).lines.subrange(0, m.lines.len() as int) =~= m.lines);
}

/// A fatal exit records exactly one new line, and that line carries the
/// runtime's error detail: it is the fatal prefix followed by the detail,
/// from which the detail can be read back.
pub proof fn lemma_fatal_exit_reports_detail(m: SequencerModel, detail: Seq<char>)
    ensures
        spec_finish_fatal(m, detail).lines.len() == m.lines.len() + 1,
        spec_finish_fatal(m, detail).lines.last() == spec_fatal_line(detail),
        spec_finish_fatal(m, detail).lines.subrange(0, m.lines.len() as int) == m.lines,
        spec_fatal_line(detail).len() == spec_fatal_prefix().len() + detail.len(),
        spec_fatal_line(detail).subrange(
            spec_fatal_prefix().len() as int,
            spec_fatal_line(detail).len() as int,
        ) == detail,
{
    assert(spec_finish_fatal(m, detail).lines.subrange(0, m.lines.len() as int) =~= m.lines);
    assert(spec_fatal_line(detail).subrange(
        spec_fatal_prefix().len() as int,
        spec_fatal_line(detail).len() as int,
    ) =~= detail);
}

/// The inspection surface never opens when developer tooling is disabled:
/// the wiring step requests it exactly when the configuration enables it.
pub proof fn lemma_disabled_tooling_never_inspects(m: SequencerModel)
    requires
        !m.devtools,
    ensures
        !spec_wire(m).1,
{
}

/// A whole run that starts from a fresh process and exits normally
/// records exactly the banner, the setup line, and the normal-exit line,
/// in that order, and ends in the succeeded phase.
pub proof fn lemma_full_run_success(m: SequencerModel)
    requires
        m.lines.len() == 0,
    ensures
        spec_finish_success(spec_wire(spec_start(m)).0).phase == Phase::Succeeded,
        spec_finish_success(spec_wire(spec_start(m)).0).lines == seq![
            spec_banner(m.version),
            spec_setup_line(),
            spec_normal_exit_line(),
        ],
{
    assert(spec_finish_success(spec_wire(spec_start(m)).0).lines =~= seq![
        spec_banner(m.version),
        spec_setup_line(),
        spec_normal_exit_line(),
    ]);
}

/// A whole run that starts from a fresh process and ends in a fatal error
/// records exactly the banner, the setup line, and the fatal line carrying
/// the error detail, in that order, and ends in the failed phase.
pub proof fn lemma_full_run_fatal(m: SequencerModel, detail: Seq<char>)
    requires
        m.lines.len() == 0,
    ensures
        spec_finish_fatal(spec_wire(spec_start(m)).0, detail).phase == Phase::Failed,
        spec_finish_fatal(spec_wire(spec_start(m)).0, detail).lines == seq![
            spec_banner(m.version),
            spec_setup_line(),
            spec_fatal_line(detail),
        ],
{
    assert(spec_finish_fatal(spec_wire(spec_start(m)).0, detail).lines =~= seq![
        spec_banner(m.version),
        spec_setup_line(),
        spec_fatal_line(detail),
    ]);
}

} // verus!
