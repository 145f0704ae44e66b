use betsure_dialer::logging::{log_sink, LogSink, Severity};
use betsure_dialer::platform::Profile;

const SEVERITIES: [Severity; 5] =
    [Severity::Error, Severity::Warn, Severity::Info, Severity::Debug, Severity::Trace];

fn level_of(severity: Severity) -> log::Level {
    match severity {
        Severity::Error => log::Level::Error,
        Severity::Warn => log::Level::Warn,
        Severity::Info => log::Level::Info,
        Severity::Debug => log::Level::Debug,
        Severity::Trace => log::Level::Trace,
    }
}

fn filter_of(sink: LogSink) -> log::LevelFilter {
    match sink {
        LogSink::Null => log::LevelFilter::Off,
        LogSink::Active(floor) => level_of(floor).to_level_filter(),
    }
}

#[test]
fn debug_builds_log_from_info_up() {
    assert_eq!(log_sink(Profile::Debug), LogSink::Active(Severity::Info));
}

#[test]
fn release_builds_have_no_sink() {
    assert_eq!(log_sink(Profile::Release), LogSink::Null);
}

#[test]
fn debug_sink_admits_info_and_above() {
    let sink = log_sink(Profile::Debug);
    assert!(sink.admits(Severity::Error));
    assert!(sink.admits(Severity::Warn));
    assert!(sink.admits(Severity::Info));
    assert!(!sink.admits(Severity::Debug));
    assert!(!sink.admits(Severity::Trace));
}

#[test]
fn release_sink_admits_nothing() {
    let sink = log_sink(Profile::Release);
    for severity in SEVERITIES {
        assert!(!sink.admits(severity));
    }
}

#[test]
fn ranks_count_from_one_for_error() {
    assert_eq!(Severity::Error.rank(), 1);
    assert_eq!(Severity::Warn.rank(), 2);
    assert_eq!(Severity::Info.rank(), 3);
    assert_eq!(Severity::Debug.rank(), 4);
    assert_eq!(Severity::Trace.rank(), 5);
}

#[test]
fn a_floor_admits_itself_and_what_is_more_severe() {
    for floor in SEVERITIES {
        for severity in SEVERITIES {
            assert_eq!(
                LogSink::Active(floor).admits(severity),
                severity.rank() <= floor.rank()
            );
        }
    }
    assert!(LogSink::Active(Severity::Error).admits(Severity::Error));
    assert!(!LogSink::Active(Severity::Error).admits(Severity::Warn));
    assert!(LogSink::Active(Severity::Trace).admits(Severity::Trace));
}

#[test]
fn ranks_are_the_levels_of_the_log_crate() {
    for severity in SEVERITIES {
        assert_eq!(usize::from(severity.rank()), level_of(severity) as usize);
    }
}

#[test]
fn sinks_admit_what_the_matching_level_filter_passes() {
    let mut sinks = vec![LogSink::Null];
    for floor in SEVERITIES {
        sinks.push(LogSink::Active(floor));
    }
    for sink in sinks {
        for severity in SEVERITIES {
            assert_eq!(sink.admits(severity), level_of(severity) <= filter_of(sink));
        }
    }
}

#[test]
fn profile_sinks_match_the_filters_of_the_log_crate() {
    assert_eq!(filter_of(log_sink(Profile::Debug)), log::LevelFilter::Info);
    assert_eq!(filter_of(log_sink(Profile::Release)), log::LevelFilter::Off);
}
