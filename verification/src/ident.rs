//! Random numbers and identifiers.

use vstd::prelude::*;
use rand::Rng;
use crate::text::is_lower_hex;

verus! {

/// Draws a number through `rand::Rng::gen_range` on the thread's generator,
/// with the half-open range `low..high`. The call panics on an empty range,
/// which `requires` leaves out; what it returns lies in the range.
#[verifier::external_body]
pub(crate) fn random_in_range(low: u32, high: u32) -> (n: u32)
    requires
        low < high,
    ensures
        low <= n < high,
{
    rand::thread_rng().gen_range(low..high)
}

/// Draws one byte through `rand::Rng::gen` on the thread's generator. Any
/// byte may come back.
#[verifier::external_body]
pub(crate) fn random_byte() -> (b: u8) {
    rand::thread_rng().gen::<u8>()
}

/// The shape of an identifier in the hyphenated form: 36 characters, a
/// hyphen at each of the four group boundaries and lower-case hexadecimal
/// digits elsewhere.
pub open spec fn is_uuid_text(s: Seq<char>) -> bool {
    &&& s.len() == 36
    &&& forall|i: int|
        0 <= i < 36 ==> if i == 8 || i == 13 || i == 18 || i == 23 {
            #[trigger] s[i] == '-'
        } else {
            is_lower_hex(s[i])
        }
}

/// Makes a random identifier with `uuid::Uuid::new_v4` and renders it with
/// the type's `Display`, which writes the hyphenated lower-case form. Which
/// identifier comes back is left open; its shape is stated.
#[verifier::external_body]
pub(crate) fn random_uuid_text() -> (id: String)
    ensures
        is_uuid_text(id@),
{
    uuid::Uuid::new_v4().to_string()
}

/// A fresh random identifier in the hyphenated form.
pub fn new_id() -> (id: String)
    ensures
        is_uuid_text(id@),
{
    random_uuid_text()
}

} // verus!
