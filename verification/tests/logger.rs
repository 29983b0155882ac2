use android_log::{
    init, AndroidLogger, Error, Level, LevelFilter, LogBuilder, Priority, Record,
};
use std::sync::atomic::{AtomicUsize, Ordering};
use std::sync::Arc;

#[test]
fn default_rendering_reaches_the_write() {
    let logger = LogBuilder::new("tag").unwrap().build();
    let record = Record::new(Level::Info, "app", "app::mod", "hello");
    let write = logger.log(&record).unwrap();
    assert_eq!(write.message.as_bytes(), b"app::mod: hello");
}

#[test]
fn end_to_end_warning() {
    let logger = AndroidLogger::new("MyApp").unwrap();
    let record = Record::new(Level::Warn, "core::net", "core::net", "retrying connection");
    let write = logger.log(&record).unwrap();
    assert_eq!(write.priority, Priority::Warn);
    assert_eq!(write.priority.code(), 5);
    assert_eq!(write.tag.as_bytes(), b"MyApp");
    assert_eq!(write.tag.as_bytes_with_nul(), b"MyApp\0");
    assert_eq!(write.message.as_bytes(), b"core::net: retrying connection");
    assert_eq!(write.message.as_bytes_with_nul(), b"core::net: retrying connection\0");
}

#[test]
fn every_level_is_written_with_its_priority() {
    let logger = AndroidLogger::new("T").unwrap();
    let cases = [
        (Level::Error, Priority::Error),
        (Level::Warn, Priority::Warn),
        (Level::Info, Priority::Info),
        (Level::Debug, Priority::Debug),
        (Level::Trace, Priority::Verbose),
    ];
    for (level, priority) in cases {
        let record = Record::new(level, "t", "m", "x");
        assert_eq!(logger.log(&record).unwrap().priority, priority);
    }
}

#[test]
fn builder_refuses_tag_with_nul() {
    assert_eq!(LogBuilder::new("My\0App").err(), Some(Error::InvalidTag));
}

#[test]
fn logger_refuses_tag_with_nul() {
    assert_eq!(AndroidLogger::new("\0").err(), Some(Error::InvalidTag));
    assert_eq!(AndroidLogger::new("MyApp\0").err(), Some(Error::InvalidTag));
}

#[test]
fn init_refuses_tag_with_nul() {
    assert_eq!(init("a\0").err(), Some(Error::InvalidTag));
}

#[test]
fn empty_tag_is_accepted() {
    let logger = AndroidLogger::new("").unwrap();
    let record = Record::new(Level::Info, "t", "m", "x");
    assert_eq!(logger.log(&record).unwrap().tag.as_bytes_with_nul(), b"\0");
}

#[test]
fn custom_formatter_is_called_once_and_its_text_is_written() {
    let calls = Arc::new(AtomicUsize::new(0));
    let seen = calls.clone();
    let mut builder = LogBuilder::new("MyApp").unwrap();
    builder.format(move |record: &Record| {
        seen.fetch_add(1, Ordering::SeqCst);
        format!("{} - {}", record.target, record.message)
    });
    let logger = builder.build();
    assert_eq!(calls.load(Ordering::SeqCst), 0);

    let record = Record::new(Level::Error, "net", "core::net", "down");
    let write = logger.log(&record).unwrap();
    assert_eq!(calls.load(Ordering::SeqCst), 1);
    assert_eq!(write.message.as_bytes(), b"net - down");
    assert_eq!(write.priority, Priority::Error);
    assert_eq!(write.tag.as_bytes(), b"MyApp");

    let again = logger.log(&record).unwrap();
    assert_eq!(calls.load(Ordering::SeqCst), 2);
    assert_eq!(again.message.as_bytes(), b"net - down");
}

#[test]
fn custom_formatter_sees_the_whole_record() {
    let mut builder = LogBuilder::new("T").unwrap();
    builder.format(|record: &Record| {
        format!(
            "{}|{}|{}|{}|{}|{}",
            record.level.severity(),
            record.target,
            record.module,
            record.file,
            record.line,
            record.message
        )
    });
    let logger = builder.build();
    let record = Record {
        level: Level::Debug,
        target: String::from("tgt"),
        module: String::from("a::b"),
        file: String::from("src/a/b.rs"),
        line: 42,
        message: String::from("msg"),
    };
    assert_eq!(logger.log(&record).unwrap().message.as_bytes(), b"2|tgt|a::b|src/a/b.rs|42|msg");
}

#[test]
fn last_formatter_wins() {
    let mut builder = LogBuilder::new("T").unwrap();
    builder
        .format(|_: &Record| String::from("first"))
        .format(|_: &Record| String::from("second"));
    let logger = builder.build();
    let record = Record::new(Level::Info, "t", "m", "x");
    assert_eq!(logger.log(&record).unwrap().message.as_bytes(), b"second");
}

#[test]
fn format_keeps_the_tag() {
    let mut builder = LogBuilder::new("Kept").unwrap();
    builder.format(|_: &Record| String::new());
    let logger = builder.build();
    let record = Record::new(Level::Info, "t", "m", "x");
    let write = logger.log(&record).unwrap();
    assert_eq!(write.tag.as_bytes(), b"Kept");
    assert_eq!(write.message.as_bytes_with_nul(), b"\0");
}

#[test]
fn enabled_is_always_true_and_steady() {
    let logger = AndroidLogger::new("T").unwrap();
    for level in [Level::Error, Level::Warn, Level::Info, Level::Debug, Level::Trace] {
        let record = Record::new(level, "some::target", "m", "x");
        let meta = record.metadata();
        let first = logger.enabled(&meta);
        for _ in 0..10 {
            assert_eq!(logger.enabled(&meta), first);
        }
        assert!(first);
    }
    let record = Record::new(Level::Info, "t", "m", "still logs");
    assert_eq!(logger.log(&record).unwrap().message.as_bytes(), b"m: still logs");
}

#[test]
fn message_with_nul_is_dropped_not_cut() {
    let logger = AndroidLogger::new("T").unwrap();
    let record = Record::new(Level::Info, "t", "m", "before\0after");
    assert!(logger.log(&record).is_none());
}

#[test]
fn module_with_nul_is_dropped() {
    let logger = AndroidLogger::new("T").unwrap();
    let record = Record::new(Level::Info, "t", "m\0", "x");
    assert!(logger.log(&record).is_none());
}

#[test]
fn custom_text_with_nul_is_dropped() {
    let mut builder = LogBuilder::new("T").unwrap();
    builder.format(|_: &Record| String::from("\0"));
    let logger = builder.build();
    let record = Record::new(Level::Info, "t", "m", "x");
    assert!(logger.log(&record).is_none());
}

#[test]
fn prepare_refuses_text_with_nul() {
    let logger = AndroidLogger::new("T").unwrap();
    assert_eq!(logger.prepare(Level::Info, "a\0b").err(), Some(Error::Encoding));
}

#[test]
fn prepare_keeps_text_tag_and_priority() {
    let logger = AndroidLogger::new("Tag").unwrap();
    let write = logger.prepare(Level::Trace, "text").unwrap();
    assert_eq!(write.priority, Priority::Verbose);
    assert_eq!(write.tag.as_bytes(), b"Tag");
    assert_eq!(write.message.as_bytes(), b"text");
}

#[test]
fn init_asks_for_the_widest_threshold() {
    let plan = init("MyApp").unwrap();
    assert_eq!(plan.max_level, LevelFilter::Trace);
    let record = Record::new(Level::Trace, "t", "app", "started");
    let write = plan.logger.log(&record).unwrap();
    assert_eq!(write.tag.as_bytes(), b"MyApp");
    assert_eq!(write.message.as_bytes(), b"app: started");
    assert_eq!(write.priority, Priority::Verbose);
}

#[test]
fn logger_init_hands_the_same_logger_over() {
    let plan = AndroidLogger::new("Mine").unwrap().init();
    assert_eq!(plan.max_level, LevelFilter::Trace);
    let record = Record::new(Level::Info, "t", "m", "x");
    assert_eq!(plan.logger.log(&record).unwrap().tag.as_bytes(), b"Mine");
}

#[test]
fn builder_init_keeps_tag_and_formatter() {
    let mut builder = LogBuilder::new("Built").unwrap();
    builder.format(|record: &Record| record.message.to_uppercase());
    let plan = builder.init();
    assert_eq!(plan.max_level, LevelFilter::Trace);
    let record = Record::new(Level::Info, "t", "m", "loud");
    let write = plan.logger.log(&record).unwrap();
    assert_eq!(write.tag.as_bytes(), b"Built");
    assert_eq!(write.message.as_bytes(), b"LOUD");
}
