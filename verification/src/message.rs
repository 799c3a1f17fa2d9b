//! The text of a record: a prefix that the caller chose, then what the
//! failure says of itself.

use core::fmt::{Debug, Display};
use vstd::prelude::*;
use vstd::string::{to_string_from_display_ensures, StringExecFns};

verus! {

/// `prefix`, a colon, a space, then `text`.
pub open spec fn prefixed(prefix: Seq<char>, text: Seq<char>) -> Seq<char> {
    prefix + seq![':', ' '] + text
}

/// Whether `message` is `prefix`, a colon, a space, and then a text that the
/// `Display` impl of `E` may write for `failure`.
pub open spec fn displays<E: Display>(prefix: Seq<char>, failure: &E, message: Seq<char>) -> bool {
    exists|shown: String| #[trigger]
        to_string_from_display_ensures::<E>(failure, shown) && message == prefixed(
            prefix,
            shown@,
        )
}

/// Whether `message` is `prefix`, a colon, a space, and then some text.
pub open spec fn starts_with_prefix(prefix: Seq<char>, message: Seq<char>) -> bool {
    exists|rest: Seq<char>| message == #[trigger] prefixed(prefix, rest)
}

/// Joins a prefix and a text into one message, `"{prefix}: {text}"`.
pub fn with_prefix(prefix: &str, text: &str) -> (message: String)
    ensures
        message@ == prefixed(prefix@, text@),
{
    let mut message = String::from_str(prefix);
    message.append(": ");
    message.append(text);
    proof {
        reveal_strlit(": ");
        assert(": "@ =~= seq![':', ' ']);
    }
    message
}

/// The verbose dump of `value`, as `format!` writes it for `{:#?}`. What it
/// holds is up to the `Debug` impl of `E`, so nothing is claimed of it.
#[verifier::external_body]
fn debug_text<E: Debug>(value: &E) -> (text: String) {
    format!("{:#?}", value)
}

/// The message for a failure that can be displayed: the prefix, then the
/// failure as its `Display` impl writes it.
pub fn display_message<E: Display>(prefix: &str, failure: &E) -> (message: String)
    ensures
        displays(prefix@, failure, message@),
{
    let shown = failure.to_string();
    with_prefix(prefix, shown.as_str())
}

/// The message for a failure that can be dumped: the prefix, then the
/// failure's verbose dump, which its `Debug` impl decides.
pub fn detail_message<E: Debug>(prefix: &str, failure: &E) -> (message: String)
    ensures
        starts_with_prefix(prefix@, message@),
{
    let dump = debug_text(failure);
    with_prefix(prefix, dump.as_str())
}

/// Two messages for the same prefix and the same failure read the same, where
/// the failure's `Display` impl can write only one text for it.
pub proof fn equal_failures_equal_message<E: Display>(
    prefix: Seq<char>,
    failure: &E,
    first: Seq<char>,
    second: Seq<char>,
)
    requires
        displays(prefix, failure, first),
        displays(prefix, failure, second),
        forall|a: String, b: String|
            to_string_from_display_ensures::<E>(failure, a) && to_string_from_display_ensures::<E>(
                failure,
                b,
            ) ==> a@ == b@,
    ensures
        first == second,
{
}

} // verus!
