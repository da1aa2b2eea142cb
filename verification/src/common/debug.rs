//! The debug output switch and how its environment value is read.

use vstd::prelude::*;
use crate::common::text::{all_ascii, lower_seq};

verus! {

/// The lower-case form of a text (Unicode lower-casing, as `str::to_lowercase`).
pub uninterp spec fn unicode_lower(s: Seq<char>) -> Seq<char>;

/// `str::to_lowercase`. Unicode lower-cases an ASCII character to its ASCII lower case, so
/// an all-ASCII text is lower-cased letter by letter.
#[verifier::external_body]
pub(crate) fn str_to_lowercase(s: &str) -> (r: String)
    ensures
        r@ == unicode_lower(s@),
        all_ascii(s@) ==> r@ == lower_seq(s@),
{
    s.to_lowercase()
}

/// Whether debug output is on for the switch value `value`: on where it is unset, and where
/// it is "1" or "true" in any case; off for any other value.
pub fn debug_flag(value: Option<&str>) -> (r: bool)
    ensures
        r == match value {
            None => true,
            Some(v) => v@ == "1"@ || unicode_lower(v@) == "true"@,
        },
{
    match value {
        None => true,
        Some(v) => {
            if crate::common::str_map::str_eq(v, "1") {
                true
            } else {
                let lower = str_to_lowercase(v);
                crate::common::str_map::str_eq(lower.as_str(), "true")
            }
        },
    }
}

} // verus!
