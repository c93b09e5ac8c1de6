use tracing_glog::time::write_time;
use tracing_glog::{
    ContextChain, ErrorValue, Event, Field, FormatError, Glog, Level, ProcessData, Sink, SpanFrame, Timer,
    Timestamp, Value,
};

fn stamp() -> Timestamp {
    Timestamp { month: 1, day: 2, hour: 3, minute: 4, second: 5, microsecond: 6 }
}

fn process(name: Option<&str>) -> ProcessData {
    ProcessData { pid: 4242, thread_name: name.map(|n| n.to_string()) }
}

fn event(level: Level, fields: Vec<Field>) -> Event {
    Event { level, target: "yak_shave".to_string(), file: "examples/yak/shave.rs".to_string(), line: 17, fields }
}

fn debug(name: &str, value: &str) -> Field {
    Field { name: name.to_string(), value: Value::Debug(value.to_string()) }
}

fn text(name: &str, value: &str) -> Field {
    Field { name: name.to_string(), value: Value::Str(value.to_string()) }
}

fn ready() -> Event {
    event(Level::Info, vec![text("message", "ready"), debug("attempts", "2")])
}

fn line(config: &Glog, chain: Option<&ContextChain>, event: &Event, process: &ProcessData) -> String {
    let mut sink = Sink::new(false);
    assert_eq!(config.format_event_at(chain, &mut sink, event, process, Some(stamp())), Ok(()));
    sink.into_string()
}

#[test]
fn default_line() {
    assert_eq!(
        line(&Glog::default(), None, &ready(), &process(Some("main"))),
        "I0102 03:04:05.000006 4242 examples/yak/shave.rs:17] ready, attempts: 2\n"
    );
}

#[test]
fn line_with_spans() {
    let chain = ContextChain::from_root(vec![
        SpanFrame { name: "shaving_yaks".to_string(), fields: "yaks: 3".to_string() },
        SpanFrame { name: "shave".to_string(), fields: "yak: 3".to_string() },
    ])
    .unwrap();
    assert_eq!(
        line(&Glog::default(), Some(&chain), &ready(), &process(None)),
        "I0102 03:04:05.000006 4242 examples/yak/shave.rs:17] [shaving_yaks{yaks: 3}, shave{yak: 3}] ready, attempts: 2\n"
    );
}

#[test]
fn spans_switched_off() {
    let chain = ContextChain::new(SpanFrame { name: "shave".to_string(), fields: "yak: 3".to_string() });
    let out = line(&Glog::default().with_span_context(false), Some(&chain), &ready(), &process(None));
    assert_eq!(out, "I0102 03:04:05.000006 4242 examples/yak/shave.rs:17] ready, attempts: 2\n");
    assert!(!out.contains('['));
}

#[test]
fn thread_name_is_shown_on_request() {
    let config = Glog::default().with_thread_names(true);
    assert_eq!(
        line(&config, None, &ready(), &process(Some("main"))),
        "I0102 03:04:05.000006 4242 main examples/yak/shave.rs:17] ready, attempts: 2\n"
    );
}

#[test]
fn unnamed_thread_leaves_no_gap() {
    let config = Glog::default().with_thread_names(true);
    assert_eq!(
        line(&config, None, &ready(), &process(None)),
        "I0102 03:04:05.000006 4242 examples/yak/shave.rs:17] ready, attempts: 2\n"
    );
}

#[test]
fn target_is_shown_on_request() {
    let config = Glog::default().with_target(true);
    assert_eq!(
        line(&config, None, &ready(), &process(Some("main"))),
        "I0102 03:04:05.000006 4242 [yak_shave] examples/yak/shave.rs:17] ready, attempts: 2\n"
    );
}

#[test]
fn thread_name_and_target() {
    let config = Glog::default().with_target(true).with_thread_names(true);
    assert_eq!(
        line(&config, None, &ready(), &process(Some("worker-1"))),
        "I0102 03:04:05.000006 4242 worker-1 [yak_shave] examples/yak/shave.rs:17] ready, attempts: 2\n"
    );
}

#[test]
fn trimmed_directory_in_a_line() {
    let config = Glog::default().with_trimmed_directory(true);
    assert_eq!(
        line(&config, None, &ready(), &process(None)),
        "I0102 03:04:05.000006 4242 shave.rs:17] ready, attempts: 2\n"
    );
}

#[test]
fn stripped_prefix_in_a_line() {
    let config = Glog::default().with_strip_prefix(Some("examples"));
    assert_eq!(
        line(&config, None, &ready(), &process(None)),
        "I0102 03:04:05.000006 4242 yak/shave.rs:17] ready, attempts: 2\n"
    );
}

#[test]
fn partial_prefix_in_a_line() {
    let config = Glog::default().with_strip_prefix(Some("exampl"));
    assert_eq!(
        line(&config, None, &ready(), &process(None)),
        "I0102 03:04:05.000006 4242 examples/yak/shave.rs:17] ready, attempts: 2\n"
    );
}

#[test]
fn prefix_can_be_taken_back() {
    let config = Glog::default().with_strip_prefix(Some("examples")).with_strip_prefix(None);
    assert_eq!(
        line(&config, None, &ready(), &process(None)),
        "I0102 03:04:05.000006 4242 examples/yak/shave.rs:17] ready, attempts: 2\n"
    );
}

#[test]
fn builders_keep_the_other_settings() {
    let config = Glog::default()
        .with_strip_prefix(Some("examples"))
        .with_trimmed_directory(true)
        .with_target(true)
        .with_thread_names(true)
        .with_span_context(false)
        .with_timer(Timer::Local)
        .with_trimmed_directory(false);
    assert_eq!(config.timer(), Timer::Local);
    let chain = ContextChain::new(SpanFrame { name: "shave".to_string(), fields: String::new() });
    assert_eq!(
        line(&config, Some(&chain), &ready(), &process(Some("main"))),
        "I0102 03:04:05.000006 4242 main [yak_shave] yak/shave.rs:17] ready, attempts: 2\n"
    );
}

#[test]
fn every_level_opens_its_line() {
    let expected = [
        (Level::Trace, "T0102"),
        (Level::Debug, "D0102"),
        (Level::Info, "I0102"),
        (Level::Warn, "W0102"),
        (Level::Error, "E0102"),
    ];
    for (level, start) in expected {
        let out = line(&Glog::default(), None, &event(level, Vec::new()), &process(None));
        assert!(out.starts_with(start));
        assert_eq!(&out[1..], "0102 03:04:05.000006 4242 examples/yak/shave.rs:17] \n");
    }
}

#[test]
fn line_without_time_stamp() {
    let mut sink = Sink::new(false);
    let config = Glog::default().with_timer(Timer::Local);
    assert_eq!(config.format_event_at(None, &mut sink, &ready(), &process(None), None), Ok(()));
    assert_eq!(sink.as_str(), "I 4242 examples/yak/shave.rs:17] ready, attempts: 2\n");
}

#[test]
fn line_with_error_field() {
    let failed = event(
        Level::Error,
        vec![
            text("message", "failed to shave yak"),
            debug("yak", "3"),
            Field {
                name: "error".to_string(),
                value: Value::Error(ErrorValue {
                    message: "out of cash".to_string(),
                    sources: vec!["bank closed".to_string(), "holiday".to_string()],
                }),
            },
        ],
    );
    assert_eq!(
        line(&Glog::default(), None, &failed, &process(None)),
        "E0102 03:04:05.000006 4242 examples/yak/shave.rs:17] failed to shave yak, yak: 3, error: out of cash, error.sources: [bank closed, holiday]\n"
    );
}

#[test]
fn styled_line() {
    let mut sink = Sink::new(true);
    Glog::default().format_event_at(None, &mut sink, &ready(), &process(None), Some(stamp())).unwrap();
    assert_eq!(
        sink.as_str(),
        "I0102 03:04:05.000006 4242 examples/yak/shave.rs:17] \x1b[1mready\x1b[0m, \x1b[1mattempts:\x1b[0m 2\n"
    );
}

#[test]
fn formatting_twice_gives_the_same_bytes() {
    let config = Glog::default().with_target(true).with_strip_prefix(Some("examples"));
    let chain = ContextChain::new(SpanFrame { name: "shave".to_string(), fields: "yak: 3".to_string() });
    let shaved = ready();
    let first = line(&config, Some(&chain), &shaved, &process(Some("main")));
    let second = line(&config, Some(&chain), &shaved, &process(Some("main")));
    assert_eq!(first.as_bytes(), second.as_bytes());
    let mut sink = Sink::new(false);
    config.format_event_at(Some(&chain), &mut sink, &shaved, &process(Some("main")), Some(stamp())).unwrap();
    config.format_event_at(Some(&chain), &mut sink, &shaved, &process(Some("main")), Some(stamp())).unwrap();
    assert_eq!(sink.into_string(), format!("{}{}", first, second));
}

#[test]
fn closed_sink_gets_nothing() {
    let mut sink = Sink::new(false);
    sink.write_str("before\n").unwrap();
    sink.close();
    assert_eq!(
        Glog::default().format_event_at(None, &mut sink, &ready(), &process(None), Some(stamp())),
        Err(FormatError::SinkWrite)
    );
    assert_eq!(Glog::default().format_event(None, &mut sink, &ready(), &process(None)), Err(FormatError::SinkWrite));
    assert_eq!(sink.as_str(), "before\n");
}

#[test]
fn header_alone() {
    let mut sink = Sink::new(false);
    let config = Glog::default().with_thread_names(true);
    assert_eq!(config.write_header(&mut sink, &ready(), &process(Some("main")), Some(stamp())), Ok(()));
    assert_eq!(sink.as_str(), "I0102 03:04:05.000006 4242 main examples/yak/shave.rs:17] ");
}

#[test]
fn process_part_alone() {
    let config = Glog::default().with_target(true).with_trimmed_directory(true);
    assert_eq!(config.format_process_data(&process(Some("main")), &ready()), " 4242 [yak_shave] shave.rs:17");
    let small = ProcessData { pid: 0, thread_name: None };
    assert_eq!(Glog::default().format_process_data(&small, &ready()), " 0 examples/yak/shave.rs:17");
}

#[test]
fn time_stamp_layout() {
    assert_eq!(stamp().render(), "0102 03:04:05.000006");
    let late = Timestamp { month: 12, day: 31, hour: 23, minute: 59, second: 59, microsecond: 999999 };
    assert_eq!(late.render(), "1231 23:59:59.999999");
    let early = Timestamp { month: 1, day: 1, hour: 0, minute: 0, second: 0, microsecond: 0 };
    assert_eq!(early.render(), "0101 00:00:00.000000");
    let mid = Timestamp { month: 12, day: 1, hour: 1, minute: 13, second: 4, microsecond: 724801 };
    assert_eq!(mid.render(), "1201 01:13:04.724801");
}

#[test]
fn absent_reading_writes_nothing() {
    let mut sink = Sink::new(false);
    assert_eq!(write_time(&mut sink, None), Ok(()));
    assert_eq!(sink.as_str(), "");
    assert_eq!(write_time(&mut sink, Some(stamp())), Ok(()));
    assert_eq!(sink.as_str(), "0102 03:04:05.000006");
    sink.close();
    assert_eq!(write_time(&mut sink, None), Ok(()));
    assert_eq!(write_time(&mut sink, Some(stamp())), Err(FormatError::SinkWrite));
    assert_eq!(sink.as_str(), "0102 03:04:05.000006");
}

fn in_range(t: &Timestamp) -> bool {
    (1..=12).contains(&t.month)
        && (1..=31).contains(&t.day)
        && t.hour < 24
        && t.minute < 60
        && t.second < 60
        && t.microsecond < 1_000_000
}

#[test]
fn utc_clock_can_be_read() {
    let now = Timer::Utc.now();
    assert!(now.is_some());
    assert!(in_range(&now.unwrap()));
}

#[test]
fn local_clock_reading_is_valid_where_there_is_one() {
    match Timer::Local.now() {
        Some(t) => assert!(in_range(&t)),
        None => {}
    }
}

#[test]
fn utc_time_stamp_has_twenty_characters() {
    let mut sink = Sink::new(false);
    assert_eq!(Timer::Utc.format_time(&mut sink), Ok(()));
    let written = sink.into_string();
    assert_eq!(written.len(), 20);
    let bytes = written.as_bytes();
    assert_eq!(bytes[4], b' ');
    assert_eq!(bytes[7], b':');
    assert_eq!(bytes[10], b':');
    assert_eq!(bytes[13], b'.');
    for (i, b) in bytes.iter().enumerate() {
        if i != 4 && i != 7 && i != 10 && i != 13 {
            assert!(b.is_ascii_digit());
        }
    }
}

#[test]
fn local_time_stamp_is_whole_or_absent() {
    let mut sink = Sink::new(false);
    assert_eq!(Timer::Local.format_time(&mut sink), Ok(()));
    let written = sink.into_string();
    assert!(written.is_empty() || written.len() == 20);
}

#[test]
fn event_with_the_clock() {
    let mut sink = Sink::new(false);
    assert_eq!(Glog::default().format_event(None, &mut sink, &ready(), &process(None)), Ok(()));
    let out = sink.into_string();
    assert!(out.starts_with('I'));
    assert_eq!(&out[21..], " 4242 examples/yak/shave.rs:17] ready, attempts: 2\n");
}
