use slog_unwrap::{
    failed, failed_with, Failure, OptionExt, ResultExt, OPTION_UNWRAP_MSG, OPTION_UNWRAP_NONE_MSG,
    RESULT_UNWRAP_ERR_MSG, RESULT_UNWRAP_MSG,
};

#[test]
fn ok_unwraps_to_its_payload_without_failure() {
    let r: Result<i32, String> = Ok(42);
    assert_eq!(r.unwrap_or_log(), Ok(42));
}

#[test]
fn ok_expects_to_its_payload_without_failure() {
    let r: Result<Vec<u8>, String> = Ok(vec![1, 2, 3]);
    assert_eq!(r.expect_or_log("never shown"), Ok(vec![1, 2, 3]));
}

#[test]
fn err_unwrap_reports_default_message_and_value() {
    let r: Result<i32, String> = Err("boom".to_string());
    let f = r.unwrap_or_log().unwrap_err();
    assert_eq!(f.message, RESULT_UNWRAP_MSG);
    assert_eq!(f.value, Some("\"boom\"".to_string()));
    let record = f.record();
    assert!(record.contains("unwrap_or_log"));
    assert!(record.contains("\"boom\""));
    assert_eq!(
        record,
        "called `Result::unwrap_or_log()` on an `Err` value: \"boom\""
    );
}

#[test]
fn err_expect_reports_caller_message_and_value() {
    let r: Result<i32, String> = Err("boom".to_string());
    let f = r.expect_or_log("loading config").unwrap_err();
    assert_eq!(f.record(), "loading config: \"boom\"");
}

#[test]
fn err_expect_custom_replaces_default_message() {
    let r: Result<u8, i64> = Err(-7);
    let f = r.expect_or_log("custom").unwrap_err();
    assert_eq!(f.message, "custom");
    assert_eq!(f.record(), "custom: -7");
    assert!(!f.record().contains("unwrap_or_log"));
}

#[test]
fn err_unwraps_to_its_payload_without_failure() {
    let r: Result<i32, String> = Err("gone".to_string());
    assert_eq!(r.unwrap_err_or_log(), Ok("gone".to_string()));
    let r: Result<i32, String> = Err("gone".to_string());
    assert_eq!(r.expect_err_or_log("must fail"), Ok("gone".to_string()));
}

#[test]
fn ok_unwrap_err_reports_default_message_and_value() {
    let r: Result<i32, String> = Ok(5);
    let f = r.unwrap_err_or_log().unwrap_err();
    assert_eq!(f.message, RESULT_UNWRAP_ERR_MSG);
    assert_eq!(
        f.record(),
        "called `Result::unwrap_err_or_log()` on an `Ok` value: 5"
    );
}

#[test]
fn ok_expect_err_reports_caller_message_and_value() {
    let r: Result<(u8, bool), String> = Ok((1, true));
    let f = r.expect_err_or_log("custom").unwrap_err();
    assert_eq!(f.record(), "custom: (1, true)");
}

#[test]
fn some_unwraps_to_its_payload_without_failure() {
    assert_eq!(Some(7u8).unwrap_or_log(), Ok(7));
    assert_eq!(Some('x').expect_or_log("needed"), Ok('x'));
}

#[test]
fn none_unwrap_reports_default_message_alone() {
    let f = None::<u8>.unwrap_or_log().unwrap_err();
    assert_eq!(f.message, OPTION_UNWRAP_MSG);
    assert_eq!(f.value, None);
    assert_eq!(f.record(), "called `Option::unwrap_or_log()` on a `None` value");
}

#[test]
fn none_expect_reports_caller_message_alone() {
    let f = None::<String>.expect_or_log("custom").unwrap_err();
    assert_eq!(f.record(), "custom");
}

#[test]
fn none_unwrap_none_returns_unit() {
    assert_eq!(None::<u8>.unwrap_none_or_log(), Ok(()));
}

#[test]
fn none_expect_none_returns_unit() {
    let o: Option<u8> = None;
    assert_eq!(o.expect_none_or_log("must be empty"), Ok(()));
}

#[test]
fn some_unwrap_none_reports_default_message_and_value() {
    let f = Some(3u32).unwrap_none_or_log().unwrap_err();
    assert_eq!(f.message, OPTION_UNWRAP_NONE_MSG);
    assert_eq!(
        f.record(),
        "called `Option::unwrap_none_or_log()` on a `Some` value: 3"
    );
}

#[test]
fn some_expect_none_reports_caller_message_and_value() {
    let f = Some("left over").expect_none_or_log("must be empty").unwrap_err();
    assert_eq!(f.record(), "must be empty: \"left over\"");
}

#[test]
fn plain_failure_has_message_as_record() {
    let f = failed("stop");
    assert_eq!(f.message, "stop");
    assert_eq!(f.value, None);
    assert_eq!(f.record(), "stop");
}

#[test]
fn failure_with_value_appends_debug_text() {
    let f = failed_with("stop", &vec![1, 2]);
    assert_eq!(f.value, Some("[1, 2]".to_string()));
    assert_eq!(f.record(), "stop: [1, 2]");
}

#[test]
fn empty_message_still_gets_separator() {
    let f = failed_with("", &0u8);
    assert_eq!(f.record(), ": 0");
}

#[test]
fn detailed_termination_repeats_record() {
    let f = failed_with("loading config", &"boom");
    assert_eq!(
        f.panic_message(false),
        Some("loading config: \"boom\"".to_string())
    );
}

#[test]
fn quiet_termination_carries_no_text_but_record_stays() {
    let f: Failure = failed_with("loading config", &"boom");
    assert_eq!(f.panic_message(true), None);
    assert_eq!(f.record(), "loading config: \"boom\"");
}
