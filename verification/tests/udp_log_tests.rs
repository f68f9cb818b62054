use std::collections::VecDeque;

use hm_pi::udp_log_listener::{
    decode_frame, push_log, ClearcoreLog, LogFrame, LogLevel, MAX_LOG_ENTRIES,
};

fn sample_datagram() -> Vec<u8> {
    let mut v = vec![0x01u8];
    v.extend_from_slice(b"\x1b[34m[INFO]\x1b[0m main.cpp");
    v.push(0x02);
    v.extend_from_slice(b" L.453 state_machine_iter: Waiting for config to be ready");
    v.push(0x03);
    v
}

#[test]
fn decodes_the_sample_datagram() {
    let frame = decode_frame(&sample_datagram()).expect("frame");
    assert_eq!(frame.level, Some(LogLevel::Info));
    assert_eq!(frame.source, b" main.cpp".to_vec());
    assert_eq!(
        frame.message,
        b" L.453 state_machine_iter: Waiting for config to be ready".to_vec()
    );
    let log = ClearcoreLog::from_frame(&frame, "12:00:00".to_string());
    assert_eq!(log.source_info, "main.cpp");
    assert_eq!(log.message, "L.453 state_machine_iter: Waiting for config to be ready");
    assert_eq!(log.level, Some(LogLevel::Info));
    assert_eq!(log.timestamp, "12:00:00");
}

#[test]
fn decodes_each_level_tag() {
    let tags: [(&[u8], LogLevel); 5] = [
        (b"\x1b[31m[ERROR]\x1b[0m", LogLevel::Error),
        (b"\x1b[33m[WARN]\x1b[0m", LogLevel::Warn),
        (b"\x1b[34m[INFO]\x1b[0m", LogLevel::Info),
        (b"\x1b[35m[DEBUG]\x1b[0m", LogLevel::Debug),
        (b"\x1b[37m[TRACE]\x1b[0m", LogLevel::Trace),
    ];
    for (tag, level) in tags.iter() {
        let mut v = vec![0x01u8];
        v.extend_from_slice(tag);
        v.extend_from_slice(b"src\x02msg\x03");
        let f = decode_frame(&v).expect("frame");
        assert_eq!(f.level, Some(*level));
        assert_eq!(f.source, b"src".to_vec());
        assert_eq!(f.message, b"msg".to_vec());
    }
}

#[test]
fn untagged_lines_have_no_level() {
    let f = decode_frame(b"\x01plain\x02text\x03trailing").expect("frame");
    assert_eq!(f.level, None);
    assert_eq!(f.source, b"plain".to_vec());
    assert_eq!(f.message, b"text".to_vec());
}

#[test]
fn malformed_frames_are_dropped() {
    assert!(decode_frame(b"").is_none());
    assert!(decode_frame(b"plain\x02text\x03").is_none());
    assert!(decode_frame(b"\x01no start of text\x03").is_none());
    assert!(decode_frame(b"\x01src\x02no end of text").is_none());
}

#[test]
fn invalid_utf8_is_replaced() {
    let frame = LogFrame { level: None, source: vec![b'a', 0xff, b'b'], message: b"  ok  ".to_vec() };
    let log = ClearcoreLog::from_frame(&frame, String::new());
    assert_eq!(log.source_info, "a\u{FFFD}b");
    assert_eq!(log.message, "ok");
}

#[test]
fn renders_list_items() {
    let log = ClearcoreLog {
        timestamp: "T".to_string(),
        level: Some(LogLevel::Warn),
        source_info: "main.cpp".to_string(),
        message: "low gas".to_string(),
    };
    assert_eq!(
        log.as_html_list_element(),
        "<li class='clearcore-log-entry clearcore-log-entry-warn'><span class='clearcore-log-timestamp'>T </span><span class='clearcore-log-source'>main.cpp </span> <span class='clearcore-log-level-warn'>[WARN ]</span> <span class='clearcore-log-message'>low gas</span></li>"
    );
    let plain = ClearcoreLog { level: None, ..log };
    assert_eq!(
        plain.as_html_list_element(),
        "<li class='clearcore-log-entry clearcore-log-entry-none'><span class='clearcore-log-timestamp'>T </span><span class='clearcore-log-source'>main.cpp </span>  <span class='clearcore-log-message'>low gas</span></li>"
    );
}

#[test]
fn level_classes_and_badges() {
    assert_eq!(ClearcoreLog::log_level_as_list_element_class(None), "clearcore-log-entry-none");
    assert_eq!(
        ClearcoreLog::log_level_as_list_element_class(Some(LogLevel::Debug)),
        "clearcore-log-entry-debug"
    );
    assert_eq!(ClearcoreLog::log_level_as_span_class(LogLevel::Trace), "clearcore-log-level-trace");
    assert_eq!(
        ClearcoreLog::log_level_as_span(LogLevel::Error),
        "<span class='clearcore-log-level-error'>[ERROR]</span>"
    );
    assert_eq!(
        ClearcoreLog::log_level_as_span(LogLevel::Info),
        "<span class='clearcore-log-level-info'>[INFO ]</span>"
    );
}

#[test]
fn only_errors_raise_a_toast() {
    let mut log = ClearcoreLog {
        timestamp: String::new(),
        level: Some(LogLevel::Error),
        source_info: String::new(),
        message: "axis fault".to_string(),
    };
    assert_eq!(log.toast_message(), Some("axis fault".to_string()));
    log.level = Some(LogLevel::Warn);
    assert_eq!(log.toast_message(), None);
    log.level = None;
    assert_eq!(log.toast_message(), None);
}

#[test]
fn backlog_keeps_the_newest_entries() {
    let mut buf: VecDeque<u32> = VecDeque::new();
    for i in 0..(MAX_LOG_ENTRIES as u32 + 5) {
        push_log(&mut buf, i);
        assert!(buf.len() <= MAX_LOG_ENTRIES);
        assert_eq!(*buf.back().unwrap(), i);
    }
    assert_eq!(buf.len(), MAX_LOG_ENTRIES);
    assert_eq!(*buf.front().unwrap(), 5);
}
