//! The one value the scanner reads from the injector settings file:
//! whether the active policy loads online-safe packages only.

use vstd::prelude::*;

use crate::text::{chars_contains_lit, chars_vec, spec_contains};

verus! {

/// Whether the settings text switches the online-safe-only policy on:
/// it contains the `:ONLINE_SAFE=1` line.
pub open spec fn spec_online_safe_flag(settings: Seq<char>) -> bool {
    spec_contains(settings, ":ONLINE_SAFE=1"@)
}

/// Reads the online-safe-only policy flag from the settings file's
/// text. A caller that could not read the file passes the empty
/// string, which carries no flag.
pub fn online_safe_flag(settings: &str) -> (r: bool)
    ensures
        r == spec_online_safe_flag(settings@),
{
    let p = chars_vec(settings);
    chars_contains_lit(&p, ":ONLINE_SAFE=1")
}

} // verus!
