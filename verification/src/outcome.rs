//! What one logging operation amounts to, worked out before anything is sent.

use crate::message::{detail_message, display_message, displays, starts_with_prefix};
use crate::record::{record_of, Record, FALLBACK_MODULE};
use crate::sink::log_message;
use crate::site::{module_of, site_view, CallSite};
use core::fmt::{Debug, Display};
use log::Level;
use vstd::prelude::*;
use vstd::string::to_string_from_display_ensures;

verus! {

/// The result of settling a fallible value: what the caller gets back, and
/// the record that is owed to the logger.
pub struct Outcome<T> {
    /// The success value, where there was one.
    pub value: Option<T>,
    /// The record of the failure, where there was one.
    pub record: Option<Record>,
}

/// Whether `outcome` is what settling `value` may come to. A success is
/// handed back as it is and leaves no record. A failure hands nothing back
/// and leaves one record, at `level`, for `site`, whose text is what `format`
/// makes of the failure.
pub open spec fn settles<T, E, F: FnOnce(E) -> String>(
    value: Result<T, E>,
    level: Level,
    site: Option<CallSite>,
    format: F,
    outcome: Outcome<T>,
) -> bool {
    match value {
        Ok(v) => outcome.value == Some(v) && outcome.record is None,
        Err(e) => {
            &&& outcome.value is None
            &&& outcome.record matches Some(record)
            &&& call_ensures(format, (e,), record.message)
            &&& record@ == record_of(level, record.message@, site_view(site))
        },
    }
}

/// Settles `value`: decides what is handed back and what is logged, and
/// formats the failure, if there is one. Nothing is sent yet. `format` is
/// called only on a failure, and then once.
pub fn settle<T, E, F: FnOnce(E) -> String>(
    value: Result<T, E>,
    level: Level,
    site: Option<CallSite>,
    format: F,
) -> (outcome: Outcome<T>)
    requires
        value matches Err(e) ==> call_requires(format, (e,)),
    ensures
        settles(value, level, site, format, outcome),
{
    match value {
        Ok(v) => Outcome { value: Some(v), record: None },
        Err(e) => Outcome { value: None, record: Some(Record::new(level, format(e), site)) },
    }
}

/// Whether `outcome` is what settling `value` may come to where a failure is
/// logged as `msg`, a colon, a space and the failure as it is displayed. A
/// success is handed back as it is and leaves no record. A failure hands
/// nothing back and leaves one record, at `level`, for `site`, with that text.
pub open spec fn settles_displayed<T, E: Display>(
    value: Result<T, E>,
    level: Level,
    msg: Seq<char>,
    site: Option<CallSite>,
    outcome: Outcome<T>,
) -> bool {
    match value {
        Ok(v) => outcome.value == Some(v) && outcome.record is None,
        Err(e) => {
            &&& outcome.value is None
            &&& outcome.record matches Some(record)
            &&& displays(msg, &e, record.message@)
            &&& record@ == record_of(level, record.message@, site_view(site))
        },
    }
}

/// Whether `outcome` is what settling `value` may come to where a failure is
/// logged as `msg`, a colon, a space and the failure's verbose dump. A
/// success is handed back as it is and leaves no record. A failure hands
/// nothing back and leaves one record, at `level`, for `site`, whose text
/// starts with `msg`, the colon and the space; the rest is up to the `Debug`
/// impl of the failure.
pub open spec fn settles_detailed<T, E>(
    value: Result<T, E>,
    level: Level,
    msg: Seq<char>,
    site: Option<CallSite>,
    outcome: Outcome<T>,
) -> bool {
    match value {
        Ok(v) => outcome.value == Some(v) && outcome.record is None,
        Err(e) => {
            &&& outcome.value is None
            &&& outcome.record matches Some(record)
            &&& starts_with_prefix(msg, record.message@)
            &&& record@ == record_of(level, record.message@, site_view(site))
        },
    }
}

/// Settles `value` with a failure logged as an error: [`settle`] at
/// `Level::Error`.
pub fn settle_error_with<T, E, F: FnOnce(E) -> String>(
    value: Result<T, E>,
    site: Option<CallSite>,
    format: F,
) -> (outcome: Outcome<T>)
    requires
        value matches Err(e) ==> call_requires(format, (e,)),
    ensures
        settles(value, Level::Error, site, format, outcome),
{
    settle(value, Level::Error, site, format)
}

/// Settles `value` with a failure logged as a warning: [`settle`] at
/// `Level::Warn`.
pub fn settle_warn_with<T, E, F: FnOnce(E) -> String>(
    value: Result<T, E>,
    site: Option<CallSite>,
    format: F,
) -> (outcome: Outcome<T>)
    requires
        value matches Err(e) ==> call_requires(format, (e,)),
    ensures
        settles(value, Level::Warn, site, format, outcome),
{
    settle(value, Level::Warn, site, format)
}

/// Settles `value` at `level` with the message `"{msg}: {failure}"`, the
/// failure written by its `Display` impl.
fn settle_displayed<T, E: Display>(
    value: Result<T, E>,
    level: Level,
    msg: &str,
    site: Option<CallSite>,
) -> (outcome: Outcome<T>)
    ensures
        settles_displayed(value, level, msg@, site, outcome),
{
    let show = |err: E| -> (text: String)
        ensures
            displays(msg@, &err, text@),
        { display_message(msg, &err) };
    settle(value, level, site, show)
}

/// Settles `value` at `level` with the message `"{msg}: {failure:#?}"`, the
/// failure dumped by its `Debug` impl.
fn settle_detailed<T, E: Debug>(
    value: Result<T, E>,
    level: Level,
    msg: &str,
    site: Option<CallSite>,
) -> (outcome: Outcome<T>)
    ensures
        settles_detailed(value, level, msg@, site, outcome),
{
    let dump = |err: E| -> (text: String)
        ensures
            starts_with_prefix(msg@, text@),
        { detail_message(msg, &err) };
    settle(value, level, site, dump)
}

/// Settles `value` with a failure logged as an error that reads
/// `"{msg}: {failure}"`, the failure written by its `Display` impl.
pub fn settle_error<T, E: Display>(value: Result<T, E>, msg: &str, site: Option<CallSite>) -> (outcome:
    Outcome<T>)
    ensures
        settles_displayed(value, Level::Error, msg@, site, outcome),
{
    settle_displayed(value, Level::Error, msg, site)
}

/// Settles `value` with a failure logged as a warning that reads
/// `"{msg}: {failure}"`, the failure written by its `Display` impl.
pub fn settle_warn<T, E: Display>(value: Result<T, E>, msg: &str, site: Option<CallSite>) -> (outcome:
    Outcome<T>)
    ensures
        settles_displayed(value, Level::Warn, msg@, site, outcome),
{
    settle_displayed(value, Level::Warn, msg, site)
}

/// Settles `value` with a failure logged as an error that reads
/// `"{msg}: {failure:#?}"`, the failure dumped by its `Debug` impl.
pub fn settle_error_detail<T, E: Debug>(
    value: Result<T, E>,
    msg: &str,
    site: Option<CallSite>,
) -> (outcome: Outcome<T>)
    ensures
        settles_detailed(value, Level::Error, msg@, site, outcome),
{
    settle_detailed(value, Level::Error, msg, site)
}

/// Settles `value` with a failure logged as a warning that reads
/// `"{msg}: {failure:#?}"`, the failure dumped by its `Debug` impl.
pub fn settle_warn_detail<T, E: Debug>(
    value: Result<T, E>,
    msg: &str,
    site: Option<CallSite>,
) -> (outcome: Outcome<T>)
    ensures
        settles_detailed(value, Level::Warn, msg@, site, outcome),
{
    settle_detailed(value, Level::Warn, msg, site)
}

/// A success comes back as it went in and leaves no record, whatever the
/// level, the call site and the format function are.
pub proof fn success_leaves_no_record<T, E, F: FnOnce(E) -> String>(
    v: T,
    level: Level,
    site: Option<CallSite>,
    format: F,
    outcome: Outcome<T>,
)
    requires
        settles(Ok::<T, E>(v), level, site, format, outcome),
    ensures
        outcome.value == Some(v),
        outcome.record is None,
{
}

/// A failure hands nothing back and leaves one record. The record is at the
/// level that was asked for, its text is what the format function returned
/// for the failure, and it names the call site, or the fallback module where
/// there is none.
pub proof fn failure_leaves_one_record<T, E, F: FnOnce(E) -> String>(
    e: E,
    level: Level,
    site: Option<CallSite>,
    format: F,
    outcome: Outcome<T>,
)
    requires
        settles(Err::<T, E>(e), level, site, format, outcome),
    ensures
        outcome.value is None,
        outcome.record is Some,
        outcome.record->0.level == level,
        call_ensures(format, (e,), outcome.record->0.message),
        site matches Some(s) ==> {
            &&& outcome.record->0.file matches Some(f)
            &&& f@ == s.file@
            &&& outcome.record->0.line == Some(s.line)
            &&& outcome.record->0.module@ == module_of(s.file@)
        },
        site is None ==> {
            &&& outcome.record->0.file is None
            &&& outcome.record->0.line is None
            &&& outcome.record->0.module@ == FALLBACK_MODULE@
        },
{
}

/// Two failures with the same payload are logged with the same text, where
/// the two format functions can return only one text for that payload. Level
/// and call site have no part in the text.
pub proof fn equal_failures_equal_text<T, E, F: FnOnce(E) -> String, G: FnOnce(E) -> String>(
    e: E,
    first_level: Level,
    first_site: Option<CallSite>,
    first_format: F,
    first: Outcome<T>,
    second_level: Level,
    second_site: Option<CallSite>,
    second_format: G,
    second: Outcome<T>,
)
    requires
        settles(Err::<T, E>(e), first_level, first_site, first_format, first),
        settles(Err::<T, E>(e), second_level, second_site, second_format, second),
        forall|a: String, b: String|
            call_ensures(first_format, (e,), a) && call_ensures(second_format, (e,), b) ==> a@
                == b@,
    ensures
        first.record is Some,
        second.record is Some,
        first.record->0.message@ == second.record->0.message@,
{
}

/// Two failures with the same payload, logged with the same prefix, are
/// logged with the same text, where the payload's `Display` impl can write
/// only one text for it. Level and call site have no part in the text.
pub proof fn equal_failures_equal_displayed_text<T, E: Display>(
    e: E,
    msg: Seq<char>,
    first_level: Level,
    first_site: Option<CallSite>,
    first: Outcome<T>,
    second_level: Level,
    second_site: Option<CallSite>,
    second: Outcome<T>,
)
    requires
        settles_displayed(Err::<T, E>(e), first_level, msg, first_site, first),
        settles_displayed(Err::<T, E>(e), second_level, msg, second_site, second),
        forall|a: String, b: String|
            to_string_from_display_ensures::<E>(&e, a) && to_string_from_display_ensures::<E>(
                &e,
                b,
            ) ==> a@ == b@,
    ensures
        first.record is Some,
        second.record is Some,
        first.record->0.message@ == second.record->0.message@,
{
}

impl<T> Outcome<T> {
    /// Sends the record, if there is one, to the logger, and hands back the
    /// value.
    pub fn deliver(self) -> (value: Option<T>)
        ensures
            value == self.value,
    {
        match self.record {
            Some(record) => log_message(&record),
            None => {},
        }
        self.value
    }
}

} // verus!
