use rslogger::{
    format_time_of_day, record_line, select_target, BufferedWriter, Level, LevelFilter, LogError,
    Logger, SinkEffect, TimeOfDay, Timestamps,
};

#[test]
fn test_default_level() {
    let builder = Logger::new();
    assert_eq!(builder.log_level(), LevelFilter::Trace);
}

#[test]
fn test_creation_level() {
    let builder = Logger::new().with_level(LevelFilter::Debug);
    assert_eq!(builder.log_level(), LevelFilter::Debug);
}

#[test]
fn test_logger_enabled() {
    let logger = Logger::new().with_level(LevelFilter::Debug);
    assert_eq!(logger.log_level(), LevelFilter::Debug);
    assert!(logger.enabled(Level::Debug));
}

#[test]
fn test_timestamp_default() {
    let builder = Logger::new();
    assert!(builder.timestamps() == Timestamps::Local);
}

#[test]
fn test_utc_timestamp() {
    let builder = Logger::new().with_utc_timestamps();
    assert!(builder.timestamps() == Timestamps::Utc);
}

#[test]
fn default_logger_matches_new() {
    let l = Logger::default();
    assert_eq!(l.log_level(), LevelFilter::Trace);
    assert_eq!(l.timestamps(), Timestamps::Local);
    assert!(!l.shows_thread());
    assert!(!l.shows_target());
    assert_eq!(l.writers().len(), 0);
}

#[test]
fn builder_flags() {
    let l = Logger::new().with_thread().with_target().without_timestamps();
    assert!(l.shows_thread());
    assert!(l.shows_target());
    assert_eq!(l.timestamps(), Timestamps::Off);
    let l = l.without_target().with_local_timestamps();
    assert!(!l.shows_target());
    assert_eq!(l.timestamps(), Timestamps::Local);
}

#[test]
fn enabled_respects_threshold() {
    let l = Logger::new().with_level(LevelFilter::Warn);
    assert!(l.enabled(Level::Error));
    assert!(l.enabled(Level::Warn));
    assert!(!l.enabled(Level::Info));
    assert!(!l.enabled(Level::Trace));
    let off = Logger::new().with_level(LevelFilter::Off);
    assert!(!off.enabled(Level::Error));
}

#[test]
fn level_names_and_filters() {
    assert_eq!(Level::Error.as_str(), "ERROR");
    assert_eq!(Level::Warn.as_str(), "WARN");
    assert_eq!(Level::Info.as_str(), "INFO");
    assert_eq!(Level::Debug.as_str(), "DEBUG");
    assert_eq!(Level::Trace.as_str(), "TRACE");
    assert_eq!(Level::Info.to_level_filter(), LevelFilter::Info);
    assert!(LevelFilter::Info.admits(Level::Warn));
    assert!(!LevelFilter::Info.admits(Level::Debug));
}

#[test]
fn add_writers_keep_order_and_settings() {
    let l = Logger::new()
        .add_writer_stdout(false, None)
        .add_writer_file(std::path::PathBuf::from("logs/app.log"), true, Some(0));
    let ws = l.writers();
    assert_eq!(ws.len(), 2);
    assert_eq!(ws[0].target(), rslogger::WriteTarget::StdOut);
    assert_eq!(ws[0].mode(), rslogger::WriteMode::ThisThread);
    assert_eq!(ws[0].buffer_capacity(), 100);
    assert!(ws[0].file_path().is_none());
    assert_eq!(ws[1].target(), rslogger::WriteTarget::File);
    assert_eq!(ws[1].mode(), rslogger::WriteMode::SeparateThread);
    assert_eq!(ws[1].buffer_capacity(), 0);
    assert_eq!(ws[1].file_path().as_ref().unwrap(), &std::path::PathBuf::from("logs/app.log"));
    assert!(!ws[1].is_initialized());
}

#[test]
fn take_writers_leaves_none() {
    let mut l = Logger::new().add_writer_stdout(false, None).add_writer_stdout(true, None);
    let ws = l.take_writers();
    assert_eq!(ws.len(), 2);
    assert_eq!(l.writers().len(), 0);
}

#[test]
fn both_thresholds_filter_per_sink() {
    let l = Logger::new()
        .with_level(LevelFilter::Info)
        .add_writer(BufferedWriter::new().with_min_level(LevelFilter::Warn))
        .add_writer(BufferedWriter::new())
        .add_writer(BufferedWriter::new().with_min_level(LevelFilter::Error));
    assert_eq!(l.route(Level::Error), vec![0, 1, 2]);
    assert_eq!(l.route(Level::Warn), vec![0, 1]);
    assert_eq!(l.route(Level::Info), vec![1]);
    assert_eq!(l.route(Level::Debug), Vec::<usize>::new());
    assert!(l.admits(&l.writers()[0], Level::Warn));
    assert!(!l.admits(&l.writers()[0], Level::Info));
    assert!(!l.admits(&l.writers()[1], Level::Trace));
}

#[test]
fn record_line_layout() {
    let line = record_line("12:00:00:000001", "app::net", "main", Level::Warn, "disk full");
    assert_eq!(line, "12:00:00:000001-[app::net][main] -> {WARN} disk full");
    let bare = record_line("", "", "", Level::Info, "");
    assert_eq!(bare, "-[][] -> {INFO} ");
}

#[test]
fn target_selection() {
    assert_eq!(select_target(false, "t", Some("m")), "");
    assert_eq!(select_target(true, "t", Some("m")), "t");
    assert_eq!(select_target(true, "", Some("m")), "m");
    assert_eq!(select_target(true, "", None), "");
}

#[test]
fn time_of_day_is_zero_padded() {
    let t = TimeOfDay { hour: 9, minute: 5, second: 3, microsecond: 42 };
    assert_eq!(format_time_of_day(t), "09:05:03:000042");
    let t = TimeOfDay { hour: 23, minute: 59, second: 59, microsecond: 999_999 };
    assert_eq!(format_time_of_day(t), "23:59:59:999999");
}

#[test]
fn log_without_timestamp_is_exact() {
    let l = Logger::new().without_timestamps().with_thread().with_target();
    let r = l.log(Level::Error, "", Some("app::db"), "worker-1", "lost connection");
    assert_eq!(r, Ok(Some("-[app::db][worker-1] -> {ERROR} lost connection".to_string())));
    let quiet = Logger::new().without_timestamps();
    let r = quiet.log(Level::Info, "app", None, "worker-1", "hello");
    assert_eq!(r, Ok(Some("-[][] -> {INFO} hello".to_string())));
}

#[test]
fn log_filtered_record_gives_nothing() {
    let l = Logger::new().with_level(LevelFilter::Error).with_utc_timestamps();
    assert_eq!(l.log(Level::Warn, "app", None, "main", "ignored"), Ok(None));
}

#[test]
fn utc_timestamp_has_clock_layout() {
    let l = Logger::new().with_utc_timestamps();
    let line = l.log(Level::Info, "", None, "", "tick").unwrap().unwrap();
    let b = line.as_bytes();
    assert!(line.ends_with("-[][] -> {INFO} tick"));
    assert_eq!(line.len(), 15 + "-[][] -> {INFO} tick".len());
    assert_eq!(b[2], b':');
    assert_eq!(b[5], b':');
    assert_eq!(b[8], b':');
    let hour: u32 = line[0..2].parse().unwrap();
    assert!(hour < 24);
    let ts = l.timestamp().unwrap();
    assert_eq!(ts.len(), 15);
}

#[test]
fn local_timestamp_is_stamped_or_reported() {
    let l = Logger::new().with_local_timestamps();
    match l.log(Level::Info, "", None, "", "tick") {
        Ok(Some(line)) => assert!(line.ends_with("-[][] -> {INFO} tick")),
        Ok(None) => panic!("an enabled record must be laid out"),
        Err(e) => assert_eq!(e, LogError::IndeterminateOffset),
    }
}

fn stream_bytes(effect: SinkEffect, out: &mut Vec<u8>) -> bool {
    match effect {
        SinkEffect::Stream(ops) => {
            out.extend_from_slice(&ops.bytes);
            ops.flush
        }
        SinkEffect::Enqueue(_) => panic!("an inline sink does not enqueue"),
    }
}

#[test]
fn inline_console_sink_at_warn_gets_two_lines() {
    let mut logger = Logger::new()
        .without_timestamps()
        .add_writer(BufferedWriter::new().on_stdout().with_min_level(LevelFilter::Warn));
    let mut sinks: Vec<BufferedWriter> =
        logger.take_writers().into_iter().map(|w| w.init().0).collect();
    let mut out = Vec::new();
    for (level, msg) in [(Level::Info, "i"), (Level::Warn, "w"), (Level::Error, "e")] {
        let line = logger.log(level, "", None, "", msg).unwrap().unwrap();
        for sink in sinks.iter_mut() {
            if logger.admits(sink, level) {
                stream_bytes(sink.write(&line), &mut out);
            }
        }
    }
    for sink in sinks.iter_mut() {
        assert!(stream_bytes(sink.flush(), &mut out));
    }
    let text = String::from_utf8(out).unwrap();
    assert_eq!(text, "-[][] -> {WARN} w\n-[][] -> {ERROR} e\n");
}
