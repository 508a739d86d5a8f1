use rusty_logger::level::Severity;
use rusty_logger::pylogger::LogLevel;
use rusty_logger::rust_logger::RustLogger;

#[test]
fn upper_case_names_are_read() {
    assert_eq!(Severity::parse("TRACE"), Severity::Trace);
    assert_eq!(Severity::parse("DEBUG"), Severity::Debug);
    assert_eq!(Severity::parse("INFO"), Severity::Info);
    assert_eq!(Severity::parse("WARN"), Severity::Warn);
    assert_eq!(Severity::parse("ERROR"), Severity::Error);
}

#[test]
fn unknown_level_reads_as_info() {
    for name in ["", "verbose", "debug", "Debug", "DEBUG ", " ERROR", "WARNING", "OFF", "trace"] {
        assert_eq!(Severity::parse(name), Severity::Info, "{:?}", name);
        assert_eq!(RustLogger::get_level_filter(name), Severity::Info, "{:?}", name);
    }
}

#[test]
fn names_round_trip() {
    for severity in [
        Severity::Trace,
        Severity::Debug,
        Severity::Info,
        Severity::Warn,
        Severity::Error,
    ] {
        assert_eq!(Severity::parse(&severity.name()), severity);
    }
    assert_eq!(Severity::Warn.name(), "WARN");
}

#[test]
fn level_names_for_callers() {
    assert_eq!(LogLevel::DEBUG(), "DEBUG");
    assert_eq!(LogLevel::WARN(), "WARN");
    assert_eq!(LogLevel::INFO(), "INFO");
    assert_eq!(LogLevel::ERROR(), "ERROR");
    assert_eq!(LogLevel::TRACE(), "TRACE");
    assert_eq!(Severity::parse(&LogLevel::TRACE()), Severity::Trace);
}

#[test]
fn severities_are_ordered() {
    let order = [
        Severity::Trace,
        Severity::Debug,
        Severity::Info,
        Severity::Warn,
        Severity::Error,
    ];
    for (i, low) in order.iter().enumerate() {
        assert_eq!(low.position() as usize, i);
        for (j, high) in order.iter().enumerate() {
            assert_eq!(low.lets_through(*high), i <= j);
        }
    }
}

#[test]
fn filter_is_a_threshold() {
    assert!(Severity::Info.lets_through(Severity::Info));
    assert!(Severity::Info.lets_through(Severity::Error));
    assert!(!Severity::Info.lets_through(Severity::Debug));
    assert!(Severity::Trace.lets_through(Severity::Trace));
    assert!(!Severity::Error.lets_through(Severity::Warn));
}

#[test]
fn comparison_follows_the_rank() {
    assert!(Severity::Trace < Severity::Debug);
    assert!(Severity::Debug < Severity::Info);
    assert!(Severity::Info < Severity::Warn);
    assert!(Severity::Warn < Severity::Error);
    assert!(Severity::Error >= Severity::Error);
    assert!(!(Severity::Error < Severity::Info));
    assert_eq!(
        Severity::Info.partial_cmp(&Severity::Info),
        Some(std::cmp::Ordering::Equal)
    );
    for filter in [Severity::Trace, Severity::Info, Severity::Error] {
        for event in [Severity::Trace, Severity::Debug, Severity::Warn, Severity::Error] {
            assert_eq!(filter.lets_through(event), filter <= event);
        }
    }
}
