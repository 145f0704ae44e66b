//! The logging sink of the shell: whether one is attached, and which records
//! it lets through.

use crate::platform::Profile;
use vstd::prelude::*;

verus! {

/// The severity of a log record, from the most severe to the least.
#[derive(Clone, Copy, PartialEq, Eq, Debug, Structural)]
pub enum Severity {
    Error,
    Warn,
    Info,
    Debug,
    Trace,
}

impl Severity {
    /// The position of the severity, counted from 1 for `Error`: the more
    /// severe a record, the smaller its rank.
    pub open spec fn spec_rank(self) -> nat {
        match self {
            Severity::Error => 1,
            Severity::Warn => 2,
            Severity::Info => 3,
            Severity::Debug => 4,
            Severity::Trace => 5,
        }
    }

    /// The position of the severity, counted from 1 for `Error`.
    pub fn rank(self) -> (rank: u8)
        ensures
            rank == self.spec_rank(),
    {
        match self {
            Severity::Error => 1,
            Severity::Warn => 2,
            Severity::Info => 3,
            Severity::Debug => 4,
            Severity::Trace => 5,
        }
    }

    /// Whether a record of this severity is as severe as `floor` or more.
    pub open spec fn reaches(self, floor: Severity) -> bool {
        self.spec_rank() <= floor.spec_rank()
    }
}

/// Where log records go.
#[derive(Clone, Copy, PartialEq, Eq, Debug, Structural)]
pub enum LogSink {
    /// No logging facility is attached: every record is dropped.
    Null,
    /// A logging facility is attached that passes on the records that are as
    /// severe as the given floor or more, and drops the others.
    Active(Severity),
}

impl LogSink {
    /// Whether a record of severity `severity` is observable through the sink.
    pub open spec fn spec_admits(self, severity: Severity) -> bool {
        match self {
            LogSink::Null => false,
            LogSink::Active(floor) => severity.reaches(floor),
        }
    }

    /// Whether a record of severity `severity` is observable through the sink.
    #[verifier::when_used_as_spec(spec_admits)]
    pub fn admits(self, severity: Severity) -> (observable: bool)
        ensures
            observable == self.spec_admits(severity),
    {
        match self {
            LogSink::Null => false,
            LogSink::Active(floor) => severity.rank() <= floor.rank(),
        }
    }
}

/// The sink of a shell built with `profile`: development builds log at
/// `Info` and above, builds for distribution do not log at all.
pub open spec fn sink_of(profile: Profile) -> LogSink {
    match profile {
        Profile::Debug => LogSink::Active(Severity::Info),
        Profile::Release => LogSink::Null,
    }
}

/// The sink to set up for a shell built with `profile`.
pub fn log_sink(profile: Profile) -> (sink: LogSink)
    ensures
        sink == sink_of(profile),
{
    match profile {
        Profile::Debug => LogSink::Active(Severity::Info),
        Profile::Release => LogSink::Null,
    }
}

/// A development build observes exactly the records at `Info` and above.
pub proof fn lemma_debug_observes_info_and_above(severity: Severity)
    ensures
        sink_of(Profile::Debug) is Active,
        sink_of(Profile::Debug).admits(severity) <==> (severity == Severity::Error || severity
            == Severity::Warn || severity == Severity::Info),
{
}

/// A build for distribution has no sink, and observes no record at all.
pub proof fn lemma_release_observes_nothing(severity: Severity)
    ensures
        sink_of(Profile::Release) == LogSink::Null,
        !sink_of(Profile::Release).admits(severity),
{
}

} // verus!
