//! Sources of randomness: the `rand` and `uuid` crates, behind contracts
//! that are taken on trust. Nothing here is repeatable, so nothing here has
//! a name in specifications: the contracts state what holds of every
//! outcome.

use vstd::prelude::*;

verus! {

/// Whether `c` is one of `0`..`9`, `a`..`f`.
pub open spec fn is_lower_hex(c: char) -> bool {
    ('0' <= c && c <= '9') || ('a' <= c && c <= 'f')
}

/// Whether `c` may stand at position `i` of the canonical text form of a
/// UUID: a hyphen at positions 8, 13, 18 and 23, a lower-case hexadecimal
/// digit elsewhere.
pub open spec fn fits_uuid_text(i: int, c: char) -> bool {
    if i == 8 || i == 13 || i == 18 || i == 23 {
        c == '-'
    } else {
        is_lower_hex(c)
    }
}

/// The canonical text form of a UUID: 36 characters, hyphens after the
/// 8th, 12th, 16th and 20th hexadecimal digit, lower-case digits elsewhere.
pub open spec fn is_uuid_text(text: Seq<char>) -> bool {
    &&& text.len() == 36
    &&& forall|i: int| 0 <= i < 36 ==> fits_uuid_text(i, #[trigger] text[i])
}

/// Calls `uuid::Uuid::new_v4` and renders the identifier with its `Display`
/// form. Trusted: the text has the canonical hyphenated lower-case shape.
/// Which identifier comes out is left open. Like the call it wraps, this
/// does not return if the operating system supplies no random bytes.
#[verifier::external_body]
pub(crate) fn fresh_uuid_text() -> (text: String)
    ensures
        is_uuid_text(text@),
{
    uuid::Uuid::new_v4().to_string()
}

/// Calls `rand::random::<i32>`. Trusted: nothing; any `i32` may come out.
/// Like the call it wraps, this does not return if the thread's generator
/// cannot be seeded.
#[verifier::external_body]
pub(crate) fn random_i32() -> (draw: i32) {
    rand::random::<i32>()
}

} // verus!
