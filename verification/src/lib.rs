//! Log a failure at the place where it is dropped, and go on with an
//! `Option`.
//!
//! [`LogError`] is implemented for `Result` and for `Option`. Each of its
//! methods hands a success back as `Some` and sends nothing; a failure is
//! formatted, sent to the logger of the `log` crate, and turned into `None`.
//!
//! What an operation hands back and what it sends is worked out by
//! [`settle`] and its six siblings, one for each operation. They send nothing
//! themselves, and their contracts state the value and the record: its level,
//! its text and its position. The methods of the trait settle their value and
//! then deliver the outcome. Records sent through the trait name no source
//! position: the library cannot see its caller. A caller that knows its own
//! position passes a [`CallSite`] to the function that settles.

use core::fmt::{Debug, Display};
use vstd::prelude::*;

pub mod message;
pub mod outcome;
pub mod record;
mod sink;
pub mod site;

pub use log::Level;
pub use outcome::{
    settle, settle_error, settle_error_detail, settle_error_with, settle_warn, settle_warn_detail,
    settle_warn_with, Outcome,
};
pub use record::{Record, FALLBACK_MODULE};
pub use site::CallSite;

use message::displays;

verus! {

/// A value that is either a success or a failure, and whose failure can be
/// logged as it is turned into `None`.
///
/// The contracts below state what is handed back, and that the failure has
/// been formatted. They cannot speak of the logger. What is sent is stated by
/// the function that each operation settles its value with: the operation is
/// that function without a call site, and then [`Outcome::deliver`].
pub trait LogError<T, E>: Sized {
    /// This value as a plain success or failure: `Ok` with what is handed
    /// back, or `Err` with what the format function is given.
    spec fn as_result(self) -> Result<T, E>;

    /// Turns this value into the plain success or failure that it stands for.
    fn into_result(self) -> (result: Result<T, E>)
        ensures
            result == self.as_result(),
    ;

    /// Hands a success back as `Some`, without calling `cb`. On a failure,
    /// calls `cb` once with the failure, logs the text it returns at `level`,
    /// and returns `None`. The record is that of [`settle`].
    fn log_level_with<F: FnOnce(E) -> String>(self, level: Level, cb: F) -> (kept: Option<T>)
        requires
            self.as_result() matches Err(e) ==> call_requires(cb, (e,)),
        ensures
            kept == self.as_result().ok(),
            self.as_result() matches Err(e) ==> exists|text: String| call_ensures(cb, (e,), text),
    ;

    /// `log_level_with` at `Level::Error`. The record is that of
    /// [`settle_error_with`].
    fn log_error_with<F: FnOnce(E) -> String>(self, cb: F) -> (kept: Option<T>)
        requires
            self.as_result() matches Err(e) ==> call_requires(cb, (e,)),
        ensures
            kept == self.as_result().ok(),
            self.as_result() matches Err(e) ==> exists|text: String| call_ensures(cb, (e,), text),
    {
        settle_error_with(self.into_result(), None, cb).deliver()
    }

    /// `log_level_with` at `Level::Warn`. The record is that of
    /// [`settle_warn_with`].
    fn log_warn_with<F: FnOnce(E) -> String>(self, cb: F) -> (kept: Option<T>)
        requires
            self.as_result() matches Err(e) ==> call_requires(cb, (e,)),
        ensures
            kept == self.as_result().ok(),
            self.as_result() matches Err(e) ==> exists|text: String| call_ensures(cb, (e,), text),
    {
        settle_warn_with(self.into_result(), None, cb).deliver()
    }

    /// Logs a failure as an error that reads `"{msg}: {failure}"`, the
    /// failure written by its `Display` impl. The record is that of
    /// [`settle_error`].
    fn log_error(self, msg: &str) -> (kept: Option<T>) where E: Display
        ensures
            kept == self.as_result().ok(),
            self.as_result() matches Err(e) ==> exists|text: String| displays(msg@, &e, text@),
    {
        settle_error(self.into_result(), msg, None).deliver()
    }

    /// Logs a failure as an error that reads `"{msg}: {failure:#?}"`, the
    /// failure dumped by its `Debug` impl. The record is that of
    /// [`settle_error_detail`].
    fn log_error_detail(self, msg: &str) -> (kept: Option<T>) where E: Debug
        ensures
            kept == self.as_result().ok(),
    {
        settle_error_detail(self.into_result(), msg, None).deliver()
    }

    /// Logs a failure as a warning that reads `"{msg}: {failure}"`, the
    /// failure written by its `Display` impl. The record is that of
    /// [`settle_warn`].
    fn log_warn(self, msg: &str) -> (kept: Option<T>) where E: Display
        ensures
            kept == self.as_result().ok(),
            self.as_result() matches Err(e) ==> exists|text: String| displays(msg@, &e, text@),
    {
        settle_warn(self.into_result(), msg, None).deliver()
    }

    /// Logs a failure as a warning that reads `"{msg}: {failure:#?}"`, the
    /// failure dumped by its `Debug` impl. The record is that of
    /// [`settle_warn_detail`].
    fn log_warn_detail(self, msg: &str) -> (kept: Option<T>) where E: Debug
        ensures
            kept == self.as_result().ok(),
    {
        settle_warn_detail(self.into_result(), msg, None).deliver()
    }
}

/// A `Result` fails with its error.
impl<T, E> LogError<T, E> for Result<T, E> {
    open spec fn as_result(self) -> Result<T, E> {
        self
    }

    fn into_result(self) -> (result: Result<T, E>) {
        self
    }

    fn log_level_with<F: FnOnce(E) -> String>(self, level: Level, cb: F) -> (kept: Option<T>) {
        settle(self, level, None, cb).deliver()
    }
}

/// An `Option` fails by being `None`; the format function is then given the
/// text `"None"`.
impl<T> LogError<T, &'static str> for Option<T> {
    open spec fn as_result(self) -> Result<T, &'static str> {
        self.ok_or("None")
    }

    fn into_result(self) -> (result: Result<T, &'static str>) {
        self.ok_or("None")
    }

    fn log_level_with<F: FnOnce(&'static str) -> String>(self, level: Level, cb: F) -> (kept:
        Option<T>) {
        settle(self.into_result(), level, None, cb).deliver()
    }
}

/// A `Result` stands for itself. An `Option` that holds a value is a success
/// with that value; one that holds none is a failure whose payload is the
/// text `"None"`, whatever the caller has at hand.
pub proof fn absent_fails_with_placeholder<T, E>(present: T, result: Result<T, E>)
    ensures
        result.as_result() == result,
        Some(present).as_result() == Ok::<T, &'static str>(present),
        None::<T>.as_result() == Err::<T, &'static str>("None"),
        "None"@ == seq!['N', 'o', 'n', 'e'],
{
    reveal_strlit("None");
    assert("None"@ =~= seq!['N', 'o', 'n', 'e']);
}

} // verus!
