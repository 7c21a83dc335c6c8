//! The user's settings: where downloads go, and how long to wait before a retry.

use vstd::prelude::*;
use vstd::string::*;
use crate::text::{chars_of, parse_unsigned, parse_unsigned_chars, IntErrorKind};

verus! {

/// The wait between two attempts of a download, in seconds, when none is given.
pub const DEFAULT_RETRY_INTERVAL: u64 = 5;

/// The user's settings.
pub struct Settings {
    pub dl_dir: String,
    pub retry_interval: u64,
}

impl Default for Settings {
    fn default() -> (r: Self)
        ensures
            r.dl_dir@ == "Downloads"@,
            r.retry_interval == DEFAULT_RETRY_INTERVAL,
    {
        Settings { dl_dir: String::from_str("Downloads"), retry_interval: DEFAULT_RETRY_INTERVAL }
    }
}

/// The retry interval that the settings window reads from `text`: the default when
/// nothing was typed, otherwise the number typed.
pub open spec fn spec_retry_interval(text: Seq<char>) -> Result<nat, IntErrorKind> {
    if text.len() == 0 {
        Ok(DEFAULT_RETRY_INTERVAL as nat)
    } else {
        parse_unsigned(text, u64::MAX as nat)
    }
}

/// Reads the retry interval typed in the settings window.
pub fn parse_retry_interval(text: &str) -> (r: Result<u64, IntErrorKind>)
    ensures
        match r {
            Ok(v) => spec_retry_interval(text@) == Ok::<nat, IntErrorKind>(v as nat),
            Err(k) => spec_retry_interval(text@) == Err::<nat, IntErrorKind>(k),
        },
{
    let cs = chars_of(text);
    if cs.len() == 0 {
        return Ok(DEFAULT_RETRY_INTERVAL);
    }
    parse_unsigned_chars(&cs, u64::MAX)
}

} // verus!
