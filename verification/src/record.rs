//! The record that one failed operation sends to the logger.

use crate::site::{module_name, module_of, site_view, CallSite, CallSiteView};
use log::Level;
use vstd::prelude::*;

verus! {

/// Makes `log::Level`, the severity of a record, known to the verifier. The
/// variants `Error`, `Warn`, `Info`, `Debug` and `Trace` are read from the
/// `log` crate's own definition; nothing is added to it here.
#[verifier::external_type_specification]
pub struct ExLevel(Level);

/// The module name that a record carries when the call site is not known.
pub const FALLBACK_MODULE: &'static str = "log_error";

/// What the logger is handed for one failure.
pub struct Record {
    /// Severity, passed on as the caller gave it.
    pub level: Level,
    /// The text that the format function made of the failure.
    pub message: String,
    /// Source file of the call site, where it is known.
    pub file: Option<&'static str>,
    /// Line of the call site, where it is known.
    pub line: Option<u32>,
    /// Name of the module that the record is attributed to.
    pub module: &'static str,
}

/// The mathematical content of a [`Record`].
pub struct RecordView {
    pub level: Level,
    pub message: Seq<char>,
    pub file: Option<Seq<char>>,
    pub line: Option<u32>,
    pub module: Seq<char>,
}

impl View for Record {
    type V = RecordView;

    open spec fn view(&self) -> RecordView {
        RecordView {
            level: self.level,
            message: self.message@,
            file: match self.file {
                Some(f) => Some(f@),
                None => None,
            },
            line: self.line,
            module: self.module@,
        }
    }
}

/// The record for a failure at `level` whose text is `message`. With a call
/// site it carries the site's file and line and is attributed to the module
/// named after the file; without one it carries neither and is attributed to
/// `FALLBACK_MODULE`.
pub open spec fn record_of(level: Level, message: Seq<char>, site: Option<CallSiteView>) -> RecordView {
    match site {
        Some(s) => RecordView {
            level,
            message,
            file: Some(s.file),
            line: Some(s.line),
            module: module_of(s.file),
        },
        None => RecordView {
            level,
            message,
            file: None,
            line: None,
            module: FALLBACK_MODULE@,
        },
    }
}

impl Record {
    /// Makes the record for a failure at `level` with the text `message`,
    /// made at `site` where the caller knows it.
    pub fn new(level: Level, message: String, site: Option<CallSite>) -> (record: Record)
        ensures
            record@ == record_of(level, message@, site_view(site)),
            record.message == message,
    {
        match site {
            Some(s) => Record {
                level,
                message,
                file: Some(s.file),
                line: Some(s.line),
                module: module_name(s.file),
            },
            None => Record { level, message, file: None, line: None, module: FALLBACK_MODULE },
        }
    }
}

} // verus!
