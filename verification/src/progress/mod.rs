//! Installation planning and progress reporting.
pub mod coordinator;
pub mod executor;
pub mod planner;
pub mod schedule;
pub mod simple_install;
pub mod tasks;
pub mod types;
pub mod validator;

use vstd::prelude::*;
use crate::ui_flat::duration_text;
use crate::units::{format_scaled, scaled_size_text};

verus! {

/// Progress tracking utilities
pub struct ProgressUtils;

impl ProgressUtils {
    /// Format bytes as human readable string, up to terabytes.
    pub fn format_bytes(bytes: u64) -> (res: String)
        ensures
            res@ == scaled_size_text(bytes as nat, 4, seq![' ']),
    {
        proof {
            reveal_strlit(" ");
        }
        format_scaled(bytes, 4, " ")
    }

    /// Format a duration of whole seconds as human readable string.
    pub fn format_duration(total_secs: u64) -> (res: String)
        ensures
            res@ == duration_text(total_secs as nat),
    {
        crate::ui_flat::format_duration(total_secs)
    }
}

} // verus!
