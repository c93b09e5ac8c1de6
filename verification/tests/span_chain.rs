use tracing_glog::span::{write_chain, write_span};
use tracing_glog::{ContextChain, FormatError, Sink, SpanFrame};

fn frame(name: &str, fields: &str) -> SpanFrame {
    SpanFrame { name: name.to_string(), fields: fields.to_string() }
}

#[test]
fn two_frames_with_fields() {
    let chain = ContextChain::from_root(vec![frame("shaving_yaks", "yaks: 3"), frame("shave", "yak: 3")])
        .unwrap();
    let mut sink = Sink::new(false);
    assert_eq!(write_chain(&mut sink, true, Some(&chain)), Ok(()));
    assert_eq!(sink.as_str(), "[shaving_yaks{yaks: 3}, shave{yak: 3}] ");
}

#[test]
fn no_active_chain_writes_nothing() {
    let mut sink = Sink::new(false);
    assert_eq!(write_chain(&mut sink, true, None), Ok(()));
    assert_eq!(sink.as_str(), "");
}

#[test]
fn disabled_chain_writes_nothing() {
    let chain = ContextChain::new(frame("shave", "yak: 3"));
    let mut sink = Sink::new(false);
    assert_eq!(write_chain(&mut sink, false, Some(&chain)), Ok(()));
    assert_eq!(sink.as_str(), "");
    assert!(!sink.as_str().contains("[]"));
}

#[test]
fn frame_without_fields_has_no_braces() {
    let chain = ContextChain::from_root(vec![frame("outer", ""), frame("inner", "k: 1"), frame("leaf", "")])
        .unwrap();
    let mut sink = Sink::new(false);
    assert_eq!(write_chain(&mut sink, true, Some(&chain)), Ok(()));
    assert_eq!(sink.as_str(), "[outer, inner{k: 1}, leaf] ");
}

#[test]
fn single_frame() {
    let chain = ContextChain::new(frame("only", ""));
    assert_eq!(chain.len(), 1);
    let mut sink = Sink::new(false);
    assert_eq!(write_chain(&mut sink, true, Some(&chain)), Ok(()));
    assert_eq!(sink.as_str(), "[only] ");
}

#[test]
fn chain_is_written_behind_what_is_there() {
    let chain = ContextChain::new(frame("only", "a: 1"));
    let mut sink = Sink::new(false);
    sink.write_str("x] ").unwrap();
    write_chain(&mut sink, true, Some(&chain)).unwrap();
    assert_eq!(sink.as_str(), "x] [only{a: 1}] ");
}

#[test]
fn chain_of_no_frames_does_not_exist() {
    assert!(ContextChain::from_root(Vec::new()).is_none());
    let three = ContextChain::from_root(vec![frame("a", ""), frame("b", ""), frame("c", "")]).unwrap();
    assert_eq!(three.len(), 3);
}

#[test]
fn chain_on_a_closed_sink_fails() {
    let chain = ContextChain::new(frame("only", ""));
    let mut sink = Sink::new(false);
    sink.write_str("kept").unwrap();
    sink.close();
    assert_eq!(write_chain(&mut sink, true, Some(&chain)), Err(FormatError::SinkWrite));
    assert_eq!(sink.as_str(), "kept");
}

#[test]
fn nothing_to_write_succeeds_on_a_closed_sink() {
    let chain = ContextChain::new(frame("only", ""));
    let mut sink = Sink::new(false);
    sink.close();
    assert_eq!(write_chain(&mut sink, false, Some(&chain)), Ok(()));
    assert_eq!(write_chain(&mut sink, true, None), Ok(()));
    assert_eq!(sink.as_str(), "");
}

#[test]
fn span_with_given_fields() {
    let mut sink = Sink::new(false);
    write_span(&mut sink, "shave", Some("yak: 3")).unwrap();
    write_span(&mut sink, "|bare", None).unwrap();
    write_span(&mut sink, "|empty", Some("")).unwrap();
    assert_eq!(sink.as_str(), "shave{yak: 3}|bare|empty{}");
}

#[test]
fn sink_keeps_order_and_capability() {
    let mut sink = Sink::new(true);
    assert!(sink.has_ansi_escapes());
    assert!(!sink.is_closed());
    assert_eq!(sink.write_str("a"), Ok(()));
    assert_eq!(sink.write_str(""), Ok(()));
    assert_eq!(sink.write_str("bc"), Ok(()));
    assert_eq!(sink.as_str(), "abc");
    sink.close();
    assert!(sink.is_closed());
    assert_eq!(sink.write_str("d"), Err(FormatError::SinkWrite));
    assert_eq!(sink.write_str(""), Err(FormatError::SinkWrite));
    assert!(sink.has_ansi_escapes());
    assert_eq!(sink.into_string(), "abc");
}
