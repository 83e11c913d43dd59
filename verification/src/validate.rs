//! Length bounds on request fields.

use vstd::prelude::*;
use validator::ValidateLength;

verus! {

/// Checks a text against a length range with
/// `validator::ValidateLength::validate_length`, given both bounds and no
/// exact length. For a text the crate counts characters, and accepts a count
/// that is neither below `min` nor above `max`.
#[verifier::external_body]
pub(crate) fn length_within(value: &str, min: u64, max: u64) -> (ok: bool)
    ensures
        ok == (min <= value@.len() <= max),
{
    value.validate_length(Some(min), Some(max), None)
}

/// Whether the number of characters of `value` lies in `min..=max`.
pub fn has_length_between(value: &str, min: u64, max: u64) -> (ok: bool)
    ensures
        ok == (min <= value@.len() <= max),
{
    length_within(value, min, max)
}

/// What is reported for a field whose length is out of range.
pub open spec fn validation_message(field: Seq<char>) -> Seq<char> {
    "Validation error: "@ + field + ": length is out of range"@
}

/// The message for a field whose length is out of range.
pub fn validation_error(field: &str) -> (message: String)
    ensures
        message@ == validation_message(field@),
{
    let mut message = String::from_str("Validation error: ");
    message.append(field);
    message.append(": length is out of range");
    message
}

} // verus!
