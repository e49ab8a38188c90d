//! Diagnostic logger: best-effort, append-only lifecycle diagnostics.
//!
//! The core keeps the recorded lines in memory, in call order; a
//! file-backed sink outside the core mirrors each line to the log file
//! and swallows every I/O failure, so that diagnostics can never become
//! a crash source.

use vstd::prelude::*;
use vstd::string::*;

verus! {

/// The fixed file name of the diagnostic log.
pub open spec fn spec_log_file_name() -> Seq<char> {
    "pulselogic.log"@
}

/// The hard-coded directory used when no candidate directory is configured.
pub open spec fn spec_default_log_dir() -> Seq<char> {
    "C:\\Temp"@
}

/// The directory the log file lives in: the first configured candidate,
/// in priority order, else the hard-coded default.
pub open spec fn spec_resolve_log_dir(temp: Option<String>, tmp: Option<String>) -> Seq<char> {
    match temp {
        Option::Some(dir) => dir@,
        Option::None => match tmp {
            Option::Some(dir) => dir@,
            Option::None => spec_default_log_dir(),
        },
    }
}

/// The full path of the log file under a resolved directory.
pub open spec fn spec_log_path(dir: Seq<char>) -> Seq<char> {
    dir + "\\"@ + spec_log_file_name()
}

/// Picks the directory for the diagnostic log from the prioritized
/// candidates handed in by the process environment, falling back to the
/// hard-coded default when none is set.
pub fn resolve_log_dir(temp: Option<String>, tmp: Option<String>) -> (dir: String)
    ensures
        dir@ == spec_resolve_log_dir(temp, tmp),
{
    match temp {
        Option::Some(dir) => dir,
        Option::None => match tmp {
            Option::Some(dir) => dir,
            Option::None => String::from_str("C:\\Temp"),
        },
    }
}

/// Builds the full log-file path under the resolved directory.
pub fn log_file_path(dir: &str) -> (path: String)
    ensures
        path@ == spec_log_path(dir@),
{
    let mut path = String::from_str(dir);
    path.append("\\");
    path.append("pulselogic.log");
    path
}

/// The views of a sequence of recorded messages, one per line.
pub open spec fn spec_line_views(messages: Seq<String>) -> Seq<Seq<char>> {
    messages.map(|i: int, message: String| message@)
}

/// The in-memory diagnostic log: the lines recorded so far, in call order.
pub struct DiagnosticLog {
    entries: Vec<String>,
}

impl DiagnosticLog {
    /// The recorded lines, oldest first.
    pub closed spec fn lines(self) -> Seq<Seq<char>> {
        spec_line_views(self.entries@)
    }

    /// An empty log: nothing recorded yet.
    pub fn new() -> (log: DiagnosticLog)
        ensures
            log.lines() == Seq::<Seq<char>>::empty(),
    {
        let log = DiagnosticLog { entries: Vec::new() };
        proof {
            assert(log.lines() =~= Seq::<Seq<char>>::empty());
        }
        log
    }

    /// Records one message as one appended line.
    ///
    /// Recording is total: it returns normally on every input, appends
    /// exactly one line, and leaves every earlier line in place.
    pub fn record(&mut self, message: &str)
        ensures
            final(self).lines() == old(self).lines().push(message@),
    {
        self.entries.push(String::from_str(message));
        proof {
            assert(self.lines() =~= old(self).lines().push(message@));
        }
    }

    /// Records a batch of messages, in order.
    ///
    /// A run of sequential calls appends exactly one line per message,
    /// in call order: the log afterwards is the old lines followed by
    /// the views of the messages.
    pub fn record_all(&mut self, messages: &Vec<String>)
        ensures
            final(self).lines() == old(self).lines() + spec_line_views(messages@),
    {
        let mut i: usize = 0;
        while i < messages.len()
            invariant
                i <= messages.len(),
                self.lines() =~= old(self).lines() + spec_line_views(
                    messages@.subrange(0, i as int),
                ),
            decreases messages@.len() - i,
        {
            self.record(messages[i].as_str());
            i = i + 1;
        }
        proof {
            assert(messages@.subrange(0, messages@.len() as int) =~= messages@);
            assert(self.lines() =~= old(self).lines() + spec_line_views(messages@));
        }
    }

    /// How many lines have been recorded.
    pub fn len(&self) -> (count: usize)
        ensures
            count == self.lines().len(),
    {
        self.entries.len()
    }

    /// The recorded line at a position, counted from the oldest.
    pub fn line_at(&self, i: usize) -> (line: &str)
        requires
            i < self.lines().len(),
        ensures
            line@ == self.lines()[i as int],
    {
        self.entries[i].as_str()
    }
}

} // verus!
