//! The way out: handing a record to the logger of the `log` crate.
//!
//! Nothing here is proved. The two functions have no postcondition, since
//! what a logger does with a record (filter it, write it, drop it, panic)
//! is decided by whoever installed it.

use crate::record::Record;
use vstd::prelude::*;

verus! {

/// Makes `core::fmt::Arguments`, a text that is ready to be written out,
/// known to the verifier. A value of it is only handed on to the logger and
/// nothing is known of what it holds.
#[verifier::external_type_specification]
#[verifier::external_body]
pub struct ExArguments<'a>(core::fmt::Arguments<'a>);

impl Record {
    /// Builds a `log::Record` with `log::Record::builder()` and passes it to
    /// `Log::log` of the logger that `log::logger()` returns. File, line,
    /// level and module are those of `self`, each through the builder's
    /// setter of that name; `text` becomes the record's `args`; the target is
    /// left as the builder has it, empty. Before a logger is installed,
    /// `log::logger()` returns one that drops every record.
    #[verifier::external_body]
    fn write_fmt(&self, text: core::fmt::Arguments<'_>) {
        log::logger().log(
            &log::Record::builder()
                .args(text)
                .file_static(self.file)
                .line(self.line)
                .level(self.level)
                .module_path_static(Some(self.module))
                .build(),
        );
    }
}

/// Sends `record` to the logger. `write!` turns the message into the
/// `core::fmt::Arguments` that a `log::Record` holds, unchanged and without
/// reading it as a format string, and passes it to `Record::write_fmt`.
#[verifier::external_body]
pub(crate) fn log_message(record: &Record) {
    write!(record, "{}", record.message);
}

} // verus!
