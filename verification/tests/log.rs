use khr_debug_emulator::enums::{
    DEBUG_SEVERITY_MEDIUM, DEBUG_SOURCE_APPLICATION, DEBUG_TYPE_OTHER, INVALID_VALUE, NO_ERROR,
};
use khr_debug_emulator::state::{EmulationState, InsertOutcome};

fn fresh() -> EmulationState<u32, u32> {
    EmulationState::new()
}

fn store_hello(st: &mut EmulationState<u32, u32>) {
    let r = st.insert_message(
        DEBUG_SOURCE_APPLICATION,
        DEBUG_TYPE_OTHER,
        42,
        DEBUG_SEVERITY_MEDIUM,
        5,
        "hello",
    );
    assert!(matches!(r, InsertOutcome::Stored));
}

#[test]
fn drain_on_empty_log_touches_nothing() {
    let mut st = fresh();
    let mut source: Option<u32> = Some(111);
    let mut ty: Option<u32> = Some(222);
    let mut id: Option<u32> = Some(333);
    let mut severity: Option<u32> = Some(444);
    let mut length: Option<i32> = Some(555);
    let mut text: Option<String> = Some(String::from("untouched"));
    let (n, rep) = st.drain_log(
        1,
        64,
        &mut source,
        &mut ty,
        &mut id,
        &mut severity,
        &mut length,
        &mut text,
    );
    assert_eq!(n, 0);
    assert!(rep.is_none());
    assert_eq!(source, Some(111));
    assert_eq!(ty, Some(222));
    assert_eq!(id, Some(333));
    assert_eq!(severity, Some(444));
    assert_eq!(length, Some(555));
    assert_eq!(text, Some(String::from("untouched")));
    assert_eq!(st.last_error, NO_ERROR);
}

#[test]
fn drain_with_insufficient_capacity_loses_message_without_error() {
    let mut st = fresh();
    store_hello(&mut st);
    let mut source: Option<u32> = Some(0);
    let mut ty: Option<u32> = Some(0);
    let mut id: Option<u32> = Some(0);
    let mut severity: Option<u32> = Some(0);
    let mut length: Option<i32> = Some(0);
    let mut text: Option<String> = Some(String::new());
    // The text is five characters long; its terminator needs a sixth slot.
    let (n, rep) = st.drain_log(
        1,
        5,
        &mut source,
        &mut ty,
        &mut id,
        &mut severity,
        &mut length,
        &mut text,
    );
    assert_eq!(n, 0);
    assert!(rep.is_none());
    // The headers were written before the capacity check.
    assert_eq!(source, Some(DEBUG_SOURCE_APPLICATION));
    assert_eq!(ty, Some(DEBUG_TYPE_OTHER));
    assert_eq!(id, Some(42));
    assert_eq!(severity, Some(DEBUG_SEVERITY_MEDIUM));
    assert_eq!(length, Some(5));
    // The text buffer was not touched, the message is lost, and no error
    // was reported.
    assert_eq!(text, Some(String::new()));
    assert!(st.log.is_none());
    assert_eq!(st.last_error, NO_ERROR);
    assert_eq!(st.get_last_error(NO_ERROR), NO_ERROR);
}

#[test]
fn drain_with_sufficient_capacity_returns_message() {
    let mut st = fresh();
    store_hello(&mut st);
    let mut source: Option<u32> = Some(0);
    let mut ty: Option<u32> = Some(0);
    let mut id: Option<u32> = Some(0);
    let mut severity: Option<u32> = Some(0);
    let mut length: Option<i32> = Some(0);
    let mut text: Option<String> = Some(String::new());
    let (n, rep) = st.drain_log(
        1,
        6,
        &mut source,
        &mut ty,
        &mut id,
        &mut severity,
        &mut length,
        &mut text,
    );
    assert_eq!(n, 1);
    assert!(rep.is_none());
    assert_eq!(source, Some(DEBUG_SOURCE_APPLICATION));
    assert_eq!(ty, Some(DEBUG_TYPE_OTHER));
    assert_eq!(id, Some(42));
    assert_eq!(severity, Some(DEBUG_SEVERITY_MEDIUM));
    assert_eq!(length, Some(5));
    assert_eq!(text, Some(String::from("hello")));
    assert!(st.log.is_none());
}

#[test]
fn drain_ignores_unsupplied_outputs() {
    let mut st = fresh();
    store_hello(&mut st);
    let mut source: Option<u32> = None;
    let mut ty: Option<u32> = None;
    let mut id: Option<u32> = None;
    let mut severity: Option<u32> = None;
    let mut length: Option<i32> = None;
    let mut text: Option<String> = None;
    let (n, rep) = st.drain_log(
        1,
        64,
        &mut source,
        &mut ty,
        &mut id,
        &mut severity,
        &mut length,
        &mut text,
    );
    assert_eq!(n, 1);
    assert!(rep.is_none());
    assert_eq!(source, None);
    assert_eq!(length, None);
    assert_eq!(text, None);
    assert!(st.log.is_none());
}

#[test]
fn drain_with_zero_count_leaves_message() {
    let mut st = fresh();
    store_hello(&mut st);
    let mut source: Option<u32> = Some(0);
    let mut ty: Option<u32> = None;
    let mut id: Option<u32> = None;
    let mut severity: Option<u32> = None;
    let mut length: Option<i32> = None;
    let mut text: Option<String> = None;
    let (n, rep) = st.drain_log(
        0,
        64,
        &mut source,
        &mut ty,
        &mut id,
        &mut severity,
        &mut length,
        &mut text,
    );
    assert_eq!(n, 0);
    assert!(rep.is_none());
    assert_eq!(source, Some(0));
    assert!(st.log.is_some());
}

#[test]
fn drain_with_negative_capacity_reports_invalid_value() {
    let mut st = fresh();
    store_hello(&mut st);
    let mut source: Option<u32> = Some(0);
    let mut ty: Option<u32> = None;
    let mut id: Option<u32> = None;
    let mut severity: Option<u32> = None;
    let mut length: Option<i32> = None;
    let mut text: Option<String> = Some(String::new());
    let (n, rep) = st.drain_log(
        1,
        -1,
        &mut source,
        &mut ty,
        &mut id,
        &mut severity,
        &mut length,
        &mut text,
    );
    assert_eq!(n, 0);
    assert!(rep.is_none());
    assert_eq!(source, Some(0));
    assert_eq!(text, Some(String::new()));
    assert_eq!(st.get_last_error(NO_ERROR), INVALID_VALUE);
    // The message itself was not consumed by the failed drain; the error
    // report overwrote it in the log slot.
    let m = st.log.take().expect("occupied");
    assert_eq!(
        m.text,
        "invalid value in glGetDebugMessageLog: bufsize < 0 and messageLog != NULL"
    );
}

#[test]
fn drain_with_negative_capacity_and_no_text_buffer_consumes_message() {
    let mut st = fresh();
    store_hello(&mut st);
    let mut source: Option<u32> = Some(0);
    let mut ty: Option<u32> = None;
    let mut id: Option<u32> = None;
    let mut severity: Option<u32> = None;
    let mut length: Option<i32> = Some(0);
    let mut text: Option<String> = None;
    // With no text buffer supplied, a negative capacity is no error; it
    // simply can never fit the text, so the message is lost silently.
    let (n, rep) = st.drain_log(
        1,
        -1,
        &mut source,
        &mut ty,
        &mut id,
        &mut severity,
        &mut length,
        &mut text,
    );
    assert_eq!(n, 0);
    assert!(rep.is_none());
    assert_eq!(source, Some(DEBUG_SOURCE_APPLICATION));
    assert_eq!(length, Some(5));
    assert!(st.log.is_none());
    assert_eq!(st.last_error, NO_ERROR);
}

#[test]
fn newest_message_overwrites_log_occupant() {
    let mut st = fresh();
    store_hello(&mut st);
    let r = st.insert_message(
        DEBUG_SOURCE_APPLICATION,
        DEBUG_TYPE_OTHER,
        43,
        DEBUG_SEVERITY_MEDIUM,
        3,
        "bye",
    );
    assert!(matches!(r, InsertOutcome::Stored));
    let m = st.log.take().expect("occupied");
    assert_eq!(m.id, 43);
    assert_eq!(m.text, "bye");
}
