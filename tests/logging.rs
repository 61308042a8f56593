use tauri_plugin_log::config::{max_file_size_from_config, parse_size};
use tauri_plugin_log::logger::{log_event, DEFAULT_MAX_FILE_SIZE};
use tauri_plugin_log::rotation::{archive_file_name, log_file_name, rotation_action};
use tauri_plugin_log::{
    ConfigError, Content, Delivery, LineFormat, LogLevel, LogRecord, LogTarget, Logger, LoggerBuilder,
    RotationAction, RotationStrategy, Sink, Timestamp,
};

const LEVELS: [LogLevel; 5] = [
    LogLevel::Trace,
    LogLevel::Debug,
    LogLevel::Info,
    LogLevel::Warn,
    LogLevel::Error,
];

const FILTERS: [log::LevelFilter; 6] = [
    log::LevelFilter::Off,
    log::LevelFilter::Error,
    log::LevelFilter::Warn,
    log::LevelFilter::Info,
    log::LevelFilter::Debug,
    log::LevelFilter::Trace,
];

fn new_year() -> Timestamp {
    Timestamp::new(2024, 1, 1, 0, 0, 0).unwrap()
}

fn record(level: LogLevel, message: &str) -> LogRecord {
    LogRecord {
        timestamp: new_year(),
        origin: "app".to_string(),
        level,
        message: message.to_string(),
    }
}

fn logger_with(targets: Vec<LogTarget>, level: log::LevelFilter) -> Logger {
    LoggerBuilder::new().targets(targets).level(level).build()
}

fn line_of(d: &Delivery) -> String {
    match &d.content {
        Content::Line(l) => l.clone(),
        Content::Event(_) => panic!("expected a rendered line"),
    }
}

#[test]
fn default_format_renders_fixed_record() {
    let r = record(LogLevel::Error, "boom");
    assert_eq!(r.format_default(), "[2024-01-01][00:00:00][app][ERROR] boom");
}

#[test]
fn default_format_pads_fields() {
    let r = LogRecord {
        timestamp: Timestamp::new(987, 3, 9, 7, 5, 4).unwrap(),
        origin: "my_app::net".to_string(),
        level: LogLevel::Info,
        message: "connected".to_string(),
    };
    assert_eq!(r.format_default(), "[0987-03-09][07:05:04][my_app::net][INFO] connected");
}

#[test]
fn years_outside_four_digits_carry_a_sign() {
    assert_eq!(Timestamp::new(-44, 3, 15, 0, 0, 0).unwrap().date_string(), "-0044-03-15");
    assert_eq!(Timestamp::new(12345, 12, 31, 0, 0, 0).unwrap().date_string(), "+12345-12-31");
    assert_eq!(Timestamp::new(9999, 12, 31, 0, 0, 0).unwrap().date_string(), "9999-12-31");
}

#[test]
fn timestamp_rejects_out_of_range_fields() {
    assert!(Timestamp::new(2024, 0, 1, 0, 0, 0).is_none());
    assert!(Timestamp::new(2024, 13, 1, 0, 0, 0).is_none());
    assert!(Timestamp::new(2024, 1, 32, 0, 0, 0).is_none());
    assert!(Timestamp::new(2024, 1, 1, 24, 0, 0).is_none());
    assert!(Timestamp::new(2024, 1, 1, 0, 60, 0).is_none());
    assert!(Timestamp::new(2024, 1, 1, 0, 0, 60).is_none());
    let t = Timestamp::new(2024, 2, 29, 23, 59, 59).unwrap();
    assert_eq!((t.year, t.month, t.day, t.hour, t.minute, t.second), (2024, 2, 29, 23, 59, 59));
}

#[test]
fn clock_reading_is_a_valid_time() {
    let t = Timestamp::now().expect("the clock reads after 1970");
    assert!((1..=12).contains(&t.month));
    assert!((1..=31).contains(&t.day));
    assert!(t.hour < 24 && t.minute < 60 && t.second < 60);
    assert!(t.year >= 2000);
}

#[test]
fn ui_sink_forwards_one_structured_event() {
    let logger = logger_with(vec![LogTarget::Webview], log::LevelFilter::Trace);
    let r = record(LogLevel::Warn, "low disk");
    let out = logger.route_default(&r);
    assert_eq!(out.len(), 1);
    assert_eq!(out[0].target, 0);
    match &out[0].content {
        Content::Event(p) => {
            assert_eq!(p.message, "low disk");
            assert_eq!(p.level.code(), 4);
        }
        Content::Line(_) => panic!("expected an event"),
    }
    assert_eq!(log_event(), "log://log");
}

#[test]
fn delivered_iff_level_passes_filter() {
    for (fi, f) in FILTERS.iter().enumerate() {
        let logger = logger_with(vec![LogTarget::Stdout], *f);
        for l in LEVELS.iter() {
            let out = logger.route_default(&record(*l, "m"));
            // FILTERS lists Off first, then Error down to Trace.
            let min_code = 6 - fi as u16;
            assert_eq!(out.len() == 1, l.code() >= min_code, "{:?} {:?}", l, f);
            assert_eq!(l.passes(*f), l.code() >= min_code);
        }
    }
}

#[test]
fn fan_out_follows_declaration_order() {
    let logger = logger_with(
        vec![
            LogTarget::Webview,
            LogTarget::Stderr,
            LogTarget::Folder("/var/log/a".to_string()),
            LogTarget::Stdout,
            LogTarget::LogDir,
        ],
        log::LevelFilter::Info,
    );
    let r = record(LogLevel::Info, "hello");
    let out = logger.route(&r, &"LINE".to_string());
    assert_eq!(out.len(), 5);
    for (i, d) in out.iter().enumerate() {
        assert_eq!(d.target, i);
    }
    assert!(matches!(out[0].content, Content::Event(_)));
    for d in &out[1..] {
        assert_eq!(line_of(d), "LINE");
    }
    assert!(logger.route(&record(LogLevel::Debug, "quiet"), &"x".to_string()).is_empty());
}

#[test]
fn sinks_resolve_in_declaration_order() {
    let logger = logger_with(
        vec![
            LogTarget::LogDir,
            LogTarget::Stdout,
            LogTarget::Folder("logs".to_string()),
            LogTarget::Webview,
            LogTarget::Stderr,
        ],
        log::LevelFilter::Trace,
    );
    let sinks = logger.resolve_sinks(&"/home/u/.config/app".to_string());
    assert_eq!(sinks.len(), 5);
    assert!(matches!(&sinks[0], Sink::File(d) if d == "/home/u/.config/app"));
    assert!(matches!(sinks[1], Sink::Stdout));
    assert!(matches!(&sinks[2], Sink::File(d) if d == "logs"));
    assert!(matches!(sinks[3], Sink::Webview));
    assert!(matches!(sinks[4], Sink::Stderr));
}

#[test]
fn builder_defaults_and_setters() {
    let b = LoggerBuilder::new();
    assert_eq!(b.level, log::LevelFilter::Trace);
    assert_eq!(b.rotation_strategy, RotationStrategy::KeepOne);
    assert_eq!(b.max_file_size, 40000);
    assert_eq!(DEFAULT_MAX_FILE_SIZE, 40000);
    assert!(matches!(b.targets.as_slice(), [LogTarget::Stdout, LogTarget::LogDir]));
    let logger = b
        .rotation_strategy(RotationStrategy::KeepAll)
        .max_file_size(10)
        .level(log::LevelFilter::Warn)
        .level_for("net".to_string(), log::LevelFilter::Off)
        .target(LogTarget::Webview)
        .build();
    assert_eq!(logger.rotation_strategy, RotationStrategy::KeepAll);
    assert_eq!(logger.max_file_size, 10);
    assert_eq!(logger.level, log::LevelFilter::Warn);
    assert_eq!(logger.module_levels, vec![("net".to_string(), log::LevelFilter::Off)]);
    assert_eq!(logger.targets.len(), 3);
    assert!(matches!(logger.targets[2], LogTarget::Webview));
    assert_eq!(logger.name(), "log");
}

#[test]
fn oversized_file_is_removed_with_keep_one() {
    assert_eq!(rotation_action(Some(40001), 40000, RotationStrategy::KeepOne), RotationAction::Remove);
}

#[test]
fn oversized_file_is_archived_with_keep_all() {
    assert_eq!(rotation_action(Some(40001), 40000, RotationStrategy::KeepAll), RotationAction::Archive);
}

#[test]
fn file_within_limit_is_kept() {
    for s in [RotationStrategy::KeepOne, RotationStrategy::KeepAll] {
        assert_eq!(rotation_action(Some(40000), 40000, s), RotationAction::Keep);
        assert_eq!(rotation_action(Some(0), 40000, s), RotationAction::Keep);
        assert_eq!(rotation_action(None, 0, s), RotationAction::Keep);
        assert_eq!(rotation_action(Some(u64::MAX), u128::MAX, s), RotationAction::Keep);
    }
}

#[test]
fn file_names() {
    assert_eq!(log_file_name("myapp"), "myapp.log");
    let d = new_year();
    assert_eq!(archive_file_name("myapp", &d, 0), "myapp-2024-01-01.log");
    assert_eq!(archive_file_name("myapp", &d, 1), "myapp-2024-01-01-1.log");
    assert_eq!(archive_file_name("myapp", &d, 12), "myapp-2024-01-01-12.log");
}

#[test]
fn size_texts_parse() {
    assert_eq!(parse_size("10KB"), Ok(10_000));
    assert_eq!(parse_size("0"), Ok(0));
    assert_eq!(parse_size("512B"), Ok(512));
    assert_eq!(parse_size("3MB"), Ok(3_000_000));
    assert_eq!(parse_size("2GB"), Ok(2_000_000_000));
    assert_eq!(parse_size("007"), Ok(7));
    assert_eq!(
        parse_size("340282366920938463463374607431768211455"),
        Ok(u128::MAX)
    );
}

#[test]
fn malformed_size_texts_are_refused() {
    for t in ["", "KB", "10 KB", "10kb", "10TB", "1.5MB", "-3", "10KBB", "x10"] {
        assert_eq!(parse_size(t), Err(ConfigError::MalformedSize), "{:?}", t);
    }
}

#[test]
fn oversized_size_texts_are_refused() {
    assert_eq!(
        parse_size("340282366920938463463374607431768211456"),
        Err(ConfigError::SizeTooLarge)
    );
    assert_eq!(
        parse_size("340282366920938463463374607431768211455KB"),
        Err(ConfigError::SizeTooLarge)
    );
    assert_eq!(parse_size("99999999999999999999999999999999999999999999B"), Err(ConfigError::SizeTooLarge));
}

#[test]
fn missing_size_config_gives_default() {
    assert_eq!(max_file_size_from_config(None), Ok(40_000));
    assert_eq!(max_file_size_from_config(Some("10KB")), Ok(10_000));
    assert_eq!(max_file_size_from_config(Some("ten")), Err(ConfigError::MalformedSize));
}

#[test]
fn level_codes_and_conversions() {
    for (i, l) in LEVELS.iter().enumerate() {
        assert_eq!(l.code(), i as u16 + 1);
        assert_eq!(LogLevel::from_code(i as u16 + 1), Some(*l));
        let back: LogLevel = log::Level::from(*l).into();
        assert_eq!(back, *l);
    }
    assert_eq!(LogLevel::from_code(0), None);
    assert_eq!(LogLevel::from_code(6), None);
    assert_eq!(log::Level::from(LogLevel::Warn), log::Level::Warn);
    assert_eq!(LogLevel::from(log::Level::Trace), LogLevel::Trace);
    assert_eq!(LogLevel::Error.name(), "ERROR");
    assert_eq!(LogLevel::Trace.name(), "TRACE");
    assert_eq!(LogLevel::Info.name(), "INFO");
}

fn origin_record(origin: &str, level: LogLevel) -> LogRecord {
    LogRecord { origin: origin.to_string(), ..record(level, "m") }
}

#[test]
fn module_levels_override_the_global_level() {
    let logger = LoggerBuilder::new()
        .targets(vec![LogTarget::Stdout])
        .level(log::LevelFilter::Info)
        .level_for("net".to_string(), log::LevelFilter::Off)
        .level_for("net::http".to_string(), log::LevelFilter::Trace)
        .level_for("db".to_string(), log::LevelFilter::Error)
        .level_for("db".to_string(), log::LevelFilter::Debug)
        .build();
    assert_eq!(logger.filter_for("app"), log::LevelFilter::Info);
    assert_eq!(logger.filter_for("net"), log::LevelFilter::Off);
    assert_eq!(logger.filter_for("net::tcp"), log::LevelFilter::Off);
    assert_eq!(logger.filter_for("network"), log::LevelFilter::Info);
    assert_eq!(logger.filter_for("net:"), log::LevelFilter::Info);
    assert_eq!(logger.filter_for("net::http"), log::LevelFilter::Trace);
    assert_eq!(logger.filter_for("net::http::client"), log::LevelFilter::Trace);
    assert_eq!(logger.filter_for("db"), log::LevelFilter::Debug);
    assert!(logger.route_default(&origin_record("net::tcp", LogLevel::Error)).is_empty());
    assert_eq!(logger.route_default(&origin_record("net::http", LogLevel::Trace)).len(), 1);
    assert!(logger.route_default(&origin_record("app", LogLevel::Debug)).is_empty());
    assert_eq!(logger.route_default(&origin_record("app", LogLevel::Info)).len(), 1);
}

#[test]
fn level_text_is_placed_in_the_default_layout() {
    let r = record(LogLevel::Warn, "low disk");
    assert_eq!(
        r.format_with_level("\x1B[33mWARN\x1B[0m"),
        "[2024-01-01][00:00:00][app][\x1B[33mWARN\x1B[0m] low disk"
    );
    assert_eq!(r.format_with_level(LogLevel::Warn.name()), r.format_default());
}

#[test]
fn logger_renders_default_layout_unless_custom() {
    let r = record(LogLevel::Error, "boom");
    let b = LoggerBuilder::default();
    assert_eq!(b.line_format, LineFormat::Default);
    let logger = b.build();
    assert_eq!(
        logger.render(&r).as_deref(),
        Some("[2024-01-01][00:00:00][app][ERROR] boom")
    );
    let custom = LoggerBuilder::new().line_format(LineFormat::Custom).build();
    assert_eq!(custom.render(&r), None);
}
