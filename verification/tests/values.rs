use std::cell::Cell;
use std::fmt;

use log::Level;
use log_error::message::{detail_message, display_message, with_prefix};
use log_error::site::{module_name, separates};
use log_error::{
    settle, settle_error, settle_error_detail, settle_error_with, settle_warn, settle_warn_detail,
    settle_warn_with, CallSite, LogError, Record, FALLBACK_MODULE,
};

struct Boom;

impl fmt::Display for Boom {
    fn fmt(&self, f: &mut fmt::Formatter<'_>) -> fmt::Result {
        f.write_str("boom")
    }
}

struct Coded;

impl fmt::Debug for Coded {
    fn fmt(&self, f: &mut fmt::Formatter<'_>) -> fmt::Result {
        f.write_str("Err{code=5}")
    }
}

#[derive(Debug)]
struct Code {
    code: u32,
}

#[test]
fn slash_and_backslash_separate() {
    assert!(separates('/'));
    assert!(separates('\\'));
    assert!(!separates(':'));
    assert!(!separates('.'));
    assert!(!separates('a'));
}

#[test]
fn module_name_is_what_follows_the_last_slash() {
    assert_eq!(module_name("src/lib.rs"), "lib.rs");
    assert_eq!(module_name("/home/dev/project/src/net/http.rs"), "http.rs");
}

#[test]
fn module_name_is_what_follows_the_last_backslash() {
    assert_eq!(module_name("C:\\work\\project\\src\\main.rs"), "main.rs");
}

#[test]
fn module_name_takes_the_later_of_both_separators() {
    assert_eq!(module_name("src\\net/http.rs"), "http.rs");
    assert_eq!(module_name("src/net\\http.rs"), "http.rs");
}

#[test]
fn module_name_of_a_bare_file_is_the_file() {
    assert_eq!(module_name("lib.rs"), "lib.rs");
}

#[test]
fn module_name_of_an_empty_path_is_empty() {
    assert_eq!(module_name(""), "");
}

#[test]
fn module_name_behind_a_trailing_separator_is_empty() {
    assert_eq!(module_name("src/"), "");
    assert_eq!(module_name("/"), "");
    assert_eq!(module_name("src\\"), "");
}

#[test]
fn module_name_counts_characters_not_bytes() {
    assert_eq!(module_name("größe/naïve/überfall.rs"), "überfall.rs");
    assert_eq!(module_name("日本語/ファイル.rs"), "ファイル.rs");
    assert_eq!(module_name("日本語"), "日本語");
}

#[test]
fn with_prefix_puts_colon_and_space_between() {
    assert_eq!(with_prefix("ctx", "boom"), "ctx: boom");
    assert_eq!(with_prefix("write failed", "disk full"), "write failed: disk full");
}

#[test]
fn with_prefix_keeps_empty_parts() {
    assert_eq!(with_prefix("", "boom"), ": boom");
    assert_eq!(with_prefix("ctx", ""), "ctx: ");
    assert_eq!(with_prefix("", ""), ": ");
}

#[test]
fn with_prefix_does_not_trim() {
    assert_eq!(with_prefix(" a ", " b "), " a :  b ");
    assert_eq!(with_prefix("a: b", "c: d"), "a: b: c: d");
}

#[test]
fn display_message_uses_display() {
    assert_eq!(display_message("ctx", &Boom), "ctx: boom");
    assert_eq!(display_message("ctx", &5u32), "ctx: 5");
    assert_eq!(display_message("ctx", &"None"), "ctx: None");
    assert_eq!(display_message("read", &String::from("no such file")), "read: no such file");
}

#[test]
fn detail_message_uses_the_verbose_dump() {
    assert_eq!(detail_message("ctx", &Coded), "ctx: Err{code=5}");
    assert_eq!(detail_message("ctx", &"None"), "ctx: \"None\"");
    assert_eq!(detail_message("ctx", &Code { code: 5 }), "ctx: Code {\n    code: 5,\n}");
}

#[test]
fn fallback_module_is_the_crate_name() {
    assert_eq!(FALLBACK_MODULE, "log_error");
}

#[test]
fn record_without_call_site_names_the_fallback_module() {
    let record = Record::new(Level::Error, String::from("ctx: boom"), None);
    assert_eq!(record.level, Level::Error);
    assert_eq!(record.message, "ctx: boom");
    assert_eq!(record.file, None);
    assert_eq!(record.line, None);
    assert_eq!(record.module, "log_error");
}

#[test]
fn record_with_call_site_names_file_line_and_module() {
    let site = CallSite { file: "src/net/http.rs", line: 17 };
    let record = Record::new(Level::Warn, String::from("timeout"), Some(site));
    assert_eq!(record.level, Level::Warn);
    assert_eq!(record.message, "timeout");
    assert_eq!(record.file, Some("src/net/http.rs"));
    assert_eq!(record.line, Some(17));
    assert_eq!(record.module, "http.rs");
}

#[test]
fn record_keeps_each_level() {
    for level in [Level::Error, Level::Warn, Level::Info, Level::Debug, Level::Trace] {
        assert_eq!(Record::new(level, String::new(), None).level, level);
    }
}

#[test]
fn settle_hands_a_success_back_and_does_not_format() {
    let calls = Cell::new(0u32);
    let value: Result<u32, &str> = Ok(42);
    let outcome = settle(value, Level::Warn, None, |e| {
        calls.set(calls.get() + 1);
        e.to_string()
    });
    assert_eq!(outcome.value, Some(42));
    assert!(outcome.record.is_none());
    assert_eq!(calls.get(), 0);
}

#[test]
fn settle_is_silent_on_success_at_every_level() {
    for level in [Level::Error, Level::Warn, Level::Info, Level::Debug, Level::Trace] {
        let value: Result<&str, u8> = Ok("kept");
        let site = CallSite { file: "src/lib.rs", line: 3 };
        let outcome = settle(value, level, Some(site), |_| panic!("a success is not formatted"));
        assert_eq!(outcome.value, Some("kept"));
        assert!(outcome.record.is_none());
    }
}

#[test]
fn settle_formats_a_failure_once() {
    let calls = Cell::new(0u32);
    let value: Result<u32, &str> = Err("disk full");
    let outcome = settle(value, Level::Warn, None, |e| {
        calls.set(calls.get() + 1);
        format!("write failed: {e}")
    });
    assert_eq!(calls.get(), 1);
    assert_eq!(outcome.value, None);
    let record = outcome.record.expect("a failure leaves a record");
    assert_eq!(record.level, Level::Warn);
    assert_eq!(record.message, "write failed: disk full");
    assert_eq!(record.file, None);
    assert_eq!(record.line, None);
    assert_eq!(record.module, FALLBACK_MODULE);
}

#[test]
fn settle_records_the_call_site() {
    let value: Result<u32, u8> = Err(7);
    let site = CallSite { file: "C:\\work\\src\\disk.rs", line: 120 };
    let outcome = settle(value, Level::Error, Some(site), |e| format!("code {e}"));
    assert_eq!(outcome.value, None);
    let record = outcome.record.expect("a failure leaves a record");
    assert_eq!(record.level, Level::Error);
    assert_eq!(record.message, "code 7");
    assert_eq!(record.file, Some("C:\\work\\src\\disk.rs"));
    assert_eq!(record.line, Some(120));
    assert_eq!(record.module, "disk.rs");
}

#[test]
fn settle_hands_the_failure_to_the_format_function() {
    let value: Result<(), Vec<u8>> = Err(vec![1, 2, 3]);
    let outcome = settle(value, Level::Info, None, |e| {
        assert_eq!(e, vec![1, 2, 3]);
        String::from("seen")
    });
    assert_eq!(outcome.record.expect("a failure leaves a record").message, "seen");
}

#[test]
fn settle_gives_equal_failures_equal_text() {
    let first: Result<u32, String> = Err(String::from("disk full"));
    let second: Result<u32, String> = Err(String::from("disk full"));
    let a = settle(first, Level::Error, None, |e| format!("write failed: {e}"));
    let b = settle(
        second,
        Level::Warn,
        Some(CallSite { file: "src/io.rs", line: 9 }),
        |e| format!("write failed: {e}"),
    );
    assert_eq!(a.record.expect("first record").message, b.record.expect("second record").message);
}

#[test]
fn into_result_of_a_result_is_the_result() {
    assert_eq!(Ok::<u32, &str>(42).into_result(), Ok(42));
    assert_eq!(Err::<u32, &str>("disk full").into_result(), Err("disk full"));
}

#[test]
fn into_result_of_an_option_fails_with_the_placeholder() {
    assert_eq!(Some(42u32).into_result(), Ok(42));
    assert_eq!(None::<u32>.into_result(), Err("None"));
}

#[test]
fn settle_error_with_leaves_an_error_record() {
    let value: Result<u32, &str> = Err("disk full");
    let outcome = settle_error_with(value, None, |e| format!("write failed: {e}"));
    assert_eq!(outcome.value, None);
    let record = outcome.record.expect("a failure leaves a record");
    assert_eq!(record.level, Level::Error);
    assert_eq!(record.message, "write failed: disk full");
    assert_eq!(record.file, None);
    assert_eq!(record.line, None);
    assert_eq!(record.module, FALLBACK_MODULE);
}

#[test]
fn settle_warn_with_leaves_a_warn_record() {
    let value: Result<u32, &str> = Err("disk full");
    let site = CallSite { file: "src/store/disk.rs", line: 88 };
    let outcome = settle_warn_with(value, Some(site), |e| format!("write failed: {e}"));
    assert_eq!(outcome.value, None);
    let record = outcome.record.expect("a failure leaves a record");
    assert_eq!(record.level, Level::Warn);
    assert_eq!(record.message, "write failed: disk full");
    assert_eq!(record.file, Some("src/store/disk.rs"));
    assert_eq!(record.line, Some(88));
    assert_eq!(record.module, "disk.rs");
}

#[test]
fn settle_error_says_prefix_and_displayed_failure() {
    let value: Result<u32, Boom> = Err(Boom);
    let site = CallSite { file: "src/main.rs", line: 5 };
    let outcome = settle_error(value, "ctx", Some(site));
    assert_eq!(outcome.value, None);
    let record = outcome.record.expect("a failure leaves a record");
    assert_eq!(record.level, Level::Error);
    assert_eq!(record.message, "ctx: boom");
    assert_eq!(record.file, Some("src/main.rs"));
    assert_eq!(record.line, Some(5));
    assert_eq!(record.module, "main.rs");
}

#[test]
fn settle_warn_differs_from_settle_error_in_level_only() {
    let site = || Some(CallSite { file: "src/main.rs", line: 5 });
    let error = settle_error(Err::<u32, Boom>(Boom), "ctx", site()).record.expect("error record");
    let warn = settle_warn(Err::<u32, Boom>(Boom), "ctx", site()).record.expect("warn record");
    assert_eq!(error.level, Level::Error);
    assert_eq!(warn.level, Level::Warn);
    assert_eq!(warn.message, "ctx: boom");
    assert_eq!(error.message, warn.message);
    assert_eq!(error.file, warn.file);
    assert_eq!(error.line, warn.line);
    assert_eq!(error.module, warn.module);
}

#[test]
fn settle_error_detail_says_prefix_and_dump() {
    let outcome = settle_error_detail(Err::<u32, Coded>(Coded), "ctx", None);
    assert_eq!(outcome.value, None);
    let record = outcome.record.expect("a failure leaves a record");
    assert_eq!(record.level, Level::Error);
    assert_eq!(record.message, "ctx: Err{code=5}");
    assert_eq!(record.module, FALLBACK_MODULE);

    let quoted = settle_error_detail(Err::<i32, &str>("boom"), "ctx", None);
    let record = quoted.record.expect("a failure leaves a record");
    assert_eq!(record.level, Level::Error);
    assert_eq!(record.message, "ctx: \"boom\"");
    assert_eq!(record.message.len(), 11);
}

#[test]
fn settle_warn_detail_says_prefix_and_pretty_dump() {
    let site = CallSite { file: "lib.rs", line: 1 };
    let outcome = settle_warn_detail(Err::<u32, Code>(Code { code: 5 }), "ctx", Some(site));
    assert_eq!(outcome.value, None);
    let record = outcome.record.expect("a failure leaves a record");
    assert_eq!(record.level, Level::Warn);
    assert_eq!(record.message, "ctx: Code {\n    code: 5,\n}");
    assert_eq!(record.file, Some("lib.rs"));
    assert_eq!(record.line, Some(1));
    assert_eq!(record.module, "lib.rs");
}

#[test]
fn every_settling_hands_a_success_back_without_a_record() {
    let with = |_: Boom| -> String { panic!("a success is not formatted") };
    let a = settle_error_with(Ok::<u8, Boom>(1), None, with);
    let b = settle_warn_with(Ok::<u8, Boom>(2), None, with);
    let c = settle_error(Ok::<u8, Boom>(3), "ctx", None);
    let d = settle_warn(Ok::<u8, Boom>(4), "ctx", None);
    let e = settle_error_detail(Ok::<u8, Coded>(5), "ctx", None);
    let f = settle_warn_detail(Ok::<u8, Coded>(6), "ctx", None);
    assert_eq!(
        [a.value, b.value, c.value, d.value, e.value, f.value],
        [Some(1), Some(2), Some(3), Some(4), Some(5), Some(6)]
    );
    assert!(a.record.is_none() && b.record.is_none() && c.record.is_none());
    assert!(d.record.is_none() && e.record.is_none() && f.record.is_none());
}

#[test]
fn settle_error_of_an_absent_option_says_none() {
    let outcome = settle_error(None::<i32>.into_result(), "ctx", None);
    assert_eq!(outcome.value, None);
    let record = outcome.record.expect("a failure leaves a record");
    assert_eq!(record.level, Level::Error);
    assert_eq!(record.message, "ctx: None");
}
