//! Liveness answers.

use vstd::prelude::*;

use crate::text::{decimal_string, decimal_text};

verus! {

/// The answer of the liveness check.
pub fn health() -> (s: &'static str)
    ensures
        s@ == "ok"@,
{
    "ok"
}

/// How long the server has been up, as the text `<seconds>s`.
pub fn uptime_text(secs: u64) -> (s: String)
    ensures
        s@ == decimal_text(secs as nat) + "s"@,
{
    decimal_string(secs).concat("s")
}

} // verus!
