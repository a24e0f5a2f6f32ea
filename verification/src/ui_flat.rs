//! Plain-text formatting used by the simple user interface.
use vstd::prelude::*;
use crate::text::{decimal, push_decimal};
use crate::units::{format_scaled, scaled_size_text};

verus! {

/// Formats a file size in a human-readable format: `"500 B"`, `"1.0 KB"`,
/// `"1.5 MB"`, up to gigabytes.
pub fn format_size(bytes: u64) -> (res: String)
    ensures
        res@ == scaled_size_text(bytes as nat, 3, seq![' ']),
{
    proof {
        reveal_strlit(" ");
    }
    format_scaled(bytes, 3, " ")
}

/// The text of a duration given in seconds: `"30s"`, `"1m30s"`, `"1h1m"`.
pub open spec fn duration_text(s: nat) -> Seq<char> {
    if s < 60 {
        decimal(s) + seq!['s']
    } else if s < 3600 {
        decimal(s / 60) + seq!['m'] + decimal(s % 60) + seq!['s']
    } else {
        decimal(s / 3600) + seq!['h'] + decimal((s % 3600) / 60) + seq!['m']
    }
}

/// Formats a duration in a human-readable format.
pub fn format_duration(seconds: u64) -> (res: String)
    ensures
        res@ == duration_text(seconds as nat),
{
    proof {
        reveal_strlit("s");
        reveal_strlit("m");
        reveal_strlit("h");
    }
    let mut s = String::new();
    if seconds < 60 {
        push_decimal(&mut s, seconds as u128);
        s.append("s");
    } else if seconds < 3600 {
        push_decimal(&mut s, (seconds / 60) as u128);
        s.append("m");
        push_decimal(&mut s, (seconds % 60) as u128);
        s.append("s");
    } else {
        push_decimal(&mut s, (seconds / 3600) as u128);
        s.append("h");
        push_decimal(&mut s, ((seconds % 3600) / 60) as u128);
        s.append("m");
    }
    s
}

} // verus!
