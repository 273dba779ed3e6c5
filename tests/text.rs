use qui::arguments::AppExtra;
use qui::logging::{decimal_text, forward_log, Severity};
use qui::text::{text_from_native, text_to_native};

#[test]
fn name_round_trips() {
    let name = "Hello world";
    let bytes = text_to_native(name);
    assert_eq!(bytes, b"Hello world".to_vec());
    assert_eq!(text_from_native(&bytes), "Hello world");
}

#[test]
fn non_ascii_name_round_trips() {
    let name = "Grüße, 世界";
    let bytes = text_to_native(name);
    assert_eq!(bytes.len(), name.len());
    assert_eq!(text_from_native(&bytes), name);
}

#[test]
fn invalid_utf8_is_replaced() {
    let bytes: Vec<u8> = vec![b'a', 0xff, b'b'];
    assert_eq!(text_from_native(&bytes), "a\u{FFFD}b");
}

#[test]
fn empty_text() {
    assert_eq!(text_to_native(""), Vec::<u8>::new());
    assert_eq!(text_from_native(&[]), "");
}

#[test]
fn decimal_of_line_numbers() {
    assert_eq!(decimal_text(0), "0");
    assert_eq!(decimal_text(7), "7");
    assert_eq!(decimal_text(10), "10");
    assert_eq!(decimal_text(1234), "1234");
    assert_eq!(decimal_text(u32::MAX), "4294967295");
}

#[test]
fn log_record_text() {
    let r = forward_log(Severity::Warn, b"binding loop", b"main.qml", 42, b"qml");
    assert_eq!(r.severity, Severity::Warn);
    assert_eq!(r.target, "qml");
    assert_eq!(r.text, "[main.qml:42] binding loop");
}

#[test]
fn log_record_with_invalid_bytes() {
    let r = forward_log(Severity::Trace, &[0xc3], &[], 0, &[b'x', 0x80]);
    assert_eq!(r.severity, Severity::Trace);
    assert_eq!(r.target, "x\u{FFFD}");
    assert_eq!(r.text, "[:0] \u{FFFD}");
}

#[test]
fn arguments_are_zero_terminated() {
    let args = vec!["app".to_string(), "-style".to_string(), "é".to_string()];
    let extra = AppExtra::new(&args);
    assert_eq!(extra.argc, 3);
    assert_eq!(extra.args[0], b"app\0".to_vec());
    assert_eq!(extra.args[1], b"-style\0".to_vec());
    assert_eq!(extra.args[2], vec![0xc3, 0xa9, 0]);
}

#[test]
fn no_arguments() {
    let extra = AppExtra::new(&Vec::new());
    assert_eq!(extra.argc, 0);
    assert!(extra.args.is_empty());
}
