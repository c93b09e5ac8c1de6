use tracing_glog::text::{chars_of, push_decimal, push_fixed, same_text, str_starts_with};
use tracing_glog::{Level, Style};

#[test]
fn decimal_numerals() {
    let mut out = String::new();
    push_decimal(&mut out, 0);
    out.push(' ');
    push_decimal(&mut out, 7);
    out.push(' ');
    push_decimal(&mut out, 10);
    out.push(' ');
    push_decimal(&mut out, 1025672);
    out.push(' ');
    push_decimal(&mut out, u32::MAX);
    assert_eq!(out, "0 7 10 1025672 4294967295");
}

#[test]
fn decimal_is_appended_to_what_is_there() {
    let mut out = String::from("line ");
    push_decimal(&mut out, 42);
    assert_eq!(out, "line 42");
}

#[test]
fn fixed_width_pads_with_zeros() {
    let mut out = String::new();
    push_fixed(&mut out, 6, 6);
    out.push(' ');
    push_fixed(&mut out, 7, 2);
    out.push(' ');
    push_fixed(&mut out, 59, 2);
    out.push(' ');
    push_fixed(&mut out, 999999, 6);
    assert_eq!(out, "000006 07 59 999999");
}

#[test]
fn fixed_width_keeps_the_last_digits() {
    let mut out = String::new();
    push_fixed(&mut out, 12345, 2);
    assert_eq!(out, "45");
    let mut none = String::new();
    push_fixed(&mut none, 12345, 0);
    assert_eq!(none, "");
}

#[test]
fn prefix_test_on_texts() {
    assert!(str_starts_with("log.target", "log."));
    assert!(str_starts_with("log.", "log."));
    assert!(!str_starts_with("log", "log."));
    assert!(!str_starts_with("blog.target", "log."));
    assert!(str_starts_with("anything", ""));
    assert!(str_starts_with("r#type", "r#"));
    assert!(!str_starts_with("r", "r#"));
}

#[test]
fn equality_of_texts() {
    assert!(same_text("message", "message"));
    assert!(!same_text("message", "messages"));
    assert!(!same_text("massage", "message"));
    assert!(same_text("", ""));
    assert!(same_text("größe", "größe"));
}

#[test]
fn characters_of_a_text() {
    assert_eq!(chars_of("a/ü"), vec!['a', '/', 'ü']);
    assert_eq!(chars_of(""), Vec::<char>::new());
}

#[test]
fn level_letters() {
    assert_eq!(Level::Trace.letter(), "T");
    assert_eq!(Level::Debug.letter(), "D");
    assert_eq!(Level::Info.letter(), "I");
    assert_eq!(Level::Warn.letter(), "W");
    assert_eq!(Level::Error.letter(), "E");
}

#[test]
fn plain_style_writes_nothing() {
    let plain = Style::new();
    assert_eq!(plain.prefix(), "");
    assert_eq!(plain.suffix(), "");
    assert_eq!(plain.infix(Style::new()), "");
}

#[test]
fn bold_style_switches_bold_on_and_off() {
    let bold = Style::new().bold();
    assert_eq!(bold.prefix(), "\x1b[1m");
    assert_eq!(bold.suffix(), "\x1b[0m");
    assert_eq!(bold.infix(Style::new()), "\x1b[0m");
    assert_eq!(bold.infix(bold), "");
    assert_eq!(Style::new().infix(bold), "\x1b[1m");
}

#[test]
fn bold_of_bold_is_bold() {
    let bold = Style::new().bold();
    assert_eq!(bold.bold(), bold);
    assert_ne!(bold, Style::new());
}
