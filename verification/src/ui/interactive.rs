//! Choices offered to the user, and checks on what the user types.
use vstd::prelude::*;
use crate::error::GvmError;
use crate::text::{decimal, digit_char, parse_unsigned, parse_unsigned_str, push_decimal, push_digit, substring};
use crate::units::{f64_value, pow1024_value, size_tenths};

verus! {

/// Actions that can be taken when a version conflict occurs
#[derive(Debug, Clone, PartialEq)]
pub enum ConflictAction {
    /// Skip the operation
    Skip,
    /// Overwrite existing version
    Overwrite,
    /// Create backup before overwriting
    Backup,
    /// Cancel the entire operation
    Cancel,
}

impl ConflictAction {
    /// Get human-readable description
    pub fn description(&self) -> (res: &'static str)
        ensures
            res@ == match *self {
                ConflictAction::Skip => "Skip installation (keep existing)"@,
                ConflictAction::Overwrite => "Overwrite existing version"@,
                ConflictAction::Backup => "Backup existing and install new"@,
                ConflictAction::Cancel => "Cancel operation"@,
            },
    {
        match self {
            ConflictAction::Skip => "Skip installation (keep existing)",
            ConflictAction::Overwrite => "Overwrite existing version",
            ConflictAction::Backup => "Backup existing and install new",
            ConflictAction::Cancel => "Cancel operation",
        }
    }
}

/// The pieces of a string between dots, as `str::split('.')` yields them.
pub open spec fn split_dots(s: Seq<char>) -> Seq<Seq<char>>
    decreases s.len(),
{
    if s.len() == 0 {
        seq![Seq::empty()]
    } else {
        let parts = split_dots(s.drop_last());
        if s.last() == '.' {
            parts.push(Seq::empty())
        } else {
            parts.update(parts.len() - 1, parts.last().push(s.last()))
        }
    }
}

/// A Go version as the prompts accept it: one to three dot-separated parts,
/// each a number that fits in `u32`.
pub open spec fn valid_version(s: Seq<char>) -> bool {
    let parts = split_dots(s);
    &&& 1 <= parts.len() <= 3
    &&& forall|i: int| 0 <= i < parts.len() ==> parse_unsigned(#[trigger] parts[i], u32::MAX as nat) is Some
}

proof fn lemma_split_dots_nonempty(s: Seq<char>)
    ensures
        split_dots(s).len() >= 1,
    decreases s.len(),
{
    if s.len() > 0 {
        lemma_split_dots_nonempty(s.drop_last());
    }
}

/// The pieces of `s` between dots.
pub fn split_on_dots(s: &str) -> (res: Vec<String>)
    ensures
        res@.len() == split_dots(s@).len(),
        forall|i: int| 0 <= i < res@.len() ==> #[trigger] res@[i]@ == split_dots(s@)[i],
{
    let n = s.unicode_len();
    let mut parts: Vec<String> = Vec::new();
    let mut start: usize = 0;
    let mut i: usize = 0;
    while i < n
        invariant
            n == s@.len(),
            start <= i <= n,
            parts@.len() + 1 == split_dots(s@.subrange(0, i as int)).len(),
            forall|k: int| 0 <= k < parts@.len() ==> #[trigger] parts@[k]@ == split_dots(s@.subrange(0, i as int))[k],
            split_dots(s@.subrange(0, i as int)).last() == s@.subrange(start as int, i as int),
        decreases n - i,
    {
        let ghost pre = s@.subrange(0, i as int);
        let ghost next = s@.subrange(0, i + 1);
        proof {
            assert(next.drop_last() =~= pre);
            lemma_split_dots_nonempty(pre);
        }
        let c = s.get_char(i);
        if c == '.' {
            parts.push(substring(s, start, i));
            start = i + 1;
            proof {
                assert(s@.subrange(start as int, i + 1) =~= Seq::<char>::empty());
            }
        } else {
            proof {
                assert(s@.subrange(start as int, i + 1) =~= s@.subrange(start as int, i as int).push(c));
            }
        }
        i = i + 1;
    }
    proof {
        assert(s@.subrange(0, n as int) =~= s@);
        lemma_split_dots_nonempty(s@);
    }
    parts.push(substring(s, start, n));
    parts
}

/// Validate version string format (e.g. `1.21.3`, `1.20`, `2`).
pub fn validate_version_format(version: &str) -> (res: bool)
    ensures
        res == valid_version(version@),
{
    let parts = split_on_dots(version);
    if parts.len() == 0 || parts.len() > 3 {
        return false;
    }
    let mut i: usize = 0;
    while i < parts.len()
        invariant
            parts@.len() == split_dots(version@).len(),
            forall|k: int| 0 <= k < parts@.len() ==> #[trigger] parts@[k]@ == split_dots(version@)[k],
            i <= parts@.len(),
            forall|k: int| 0 <= k < i ==> parse_unsigned(#[trigger] split_dots(version@)[k], u32::MAX as nat) is Some,
        decreases parts@.len() - i,
    {
        let ghost part = parts@[i as int]@;
        if parse_unsigned_str(parts[i].as_str(), u32::MAX as u64).is_none() {
            assert(parse_unsigned(split_dots(version@)[i as int], u32::MAX as nat) is None);
            return false;
        }
        i = i + 1;
    }
    true
}


/// The actions offered on a version conflict, in the order shown.
pub open spec fn conflict_actions() -> Seq<ConflictAction> {
    seq![ConflictAction::Skip, ConflictAction::Overwrite, ConflictAction::Backup, ConflictAction::Cancel]
}

/// The action chosen on a version conflict: the one at the selected
/// position of the menu (skip, overwrite, back up, cancel).
pub fn handle_version_conflict(selection: usize) -> (res: ConflictAction)
    requires
        selection < 4,
    ensures
        res == conflict_actions()[selection as int],
{
    if selection == 0 {
        ConflictAction::Skip
    } else if selection == 1 {
        ConflictAction::Overwrite
    } else if selection == 2 {
        ConflictAction::Backup
    } else {
        ConflictAction::Cancel
    }
}

/// The versions picked in a multiple selection, in the order of the
/// selection; refused when there was nothing to pick from or nothing was
/// picked.
pub fn select_multiple_versions(versions: &Vec<String>, selections: &Vec<usize>) -> (res: Result<Vec<String>, GvmError>)
    requires
        forall|i: int| 0 <= i < selections@.len() ==> (#[trigger] selections@[i]) < versions@.len(),
    ensures
        versions@.len() == 0 ==> (res matches Err(GvmError::Rejected { reason }) && reason@ == "No versions available for selection"@),
        versions@.len() > 0 && selections@.len() == 0 ==> (res matches Err(GvmError::Rejected { reason })
            && reason@ == "No versions selected"@),
        versions@.len() > 0 && selections@.len() > 0 ==> (res matches Ok(picked) && picked@.len() == selections@.len()
            && forall|i: int| 0 <= i < selections@.len() ==> #[trigger] picked@[i]@ == versions@[selections@[i] as int]@),
{
    if versions.len() == 0 {
        return Err(GvmError::Rejected { reason: String::from_str("No versions available for selection") });
    }
    let mut picked: Vec<String> = Vec::new();
    let mut i: usize = 0;
    while i < selections.len()
        invariant
            forall|k: int| 0 <= k < selections@.len() ==> (#[trigger] selections@[k]) < versions@.len(),
            i <= selections@.len(),
            picked@.len() == i,
            forall|k: int| 0 <= k < i ==> #[trigger] picked@[k]@ == versions@[selections@[k] as int]@,
        decreases selections@.len() - i,
    {
        picked.push(versions[selections[i]].clone());
        i = i + 1;
    }
    if picked.len() == 0 {
        return Err(GvmError::Rejected { reason: String::from_str("No versions selected") });
    }
    Ok(picked)
}

/// The item picked in a searchable selection; refused when there was
/// nothing to pick from or nothing was picked.
pub fn select_with_search(items: &Vec<String>, selection: Option<usize>) -> (res: Result<String, GvmError>)
    requires
        selection matches Some(i) ==> i < items@.len(),
    ensures
        items@.len() == 0 ==> (res matches Err(GvmError::Rejected { reason }) && reason@ == "No items available for selection"@),
        items@.len() > 0 ==> match selection {
            Some(i) => res matches Ok(s) && s@ == items@[i as int]@,
            None => res matches Err(GvmError::Rejected { reason }) && reason@ == "No item selected"@,
        },
{
    if items.len() == 0 {
        return Err(GvmError::Rejected { reason: String::from_str("No items available for selection") });
    }
    match selection {
        Some(i) => Ok(items[i].clone()),
        None => Err(GvmError::Rejected { reason: String::from_str("No item selected") }),
    }
}

/// Whether the user is asked to retry: only while attempts are left.
pub fn ask_retry(attempt: u32, max_attempts: u32) -> (res: bool)
    ensures
        res == (attempt < max_attempts),
{
    attempt < max_attempts
}

/// A size in megabytes with one decimal, as `{:.1}` renders the binary64
/// quotient of the size by 1024 twice.
pub open spec fn megabytes_text(b: nat) -> Seq<char> {
    let t = size_tenths(b, 2);
    decimal(t / 10) + seq!['.', digit_char(t % 10)] + "MB"@
}

/// A version with its metadata: the `installed_marker` (the styled
/// `(installed)` text) when installed, and the size in megabytes when known.
pub fn format_version_with_info(version: &str, size: Option<u64>, installed: bool, installed_marker: &str) -> (res: String)
    ensures
        res@ == version@ + (if installed { " "@ + installed_marker@ } else { Seq::empty() }) + match size {
            Some(b) => " - "@ + megabytes_text(b as nat),
            None => Seq::empty(),
        },
{
    let mut s = String::from_str(version);
    let ghost head = version@ + (if installed { " "@ + installed_marker@ } else { Seq::<char>::empty() });
    if installed {
        s.append(" ");
        s.append(installed_marker);
    }
    assert(s@ =~= head);
    if let Some(b) = size {
        let r = f64_value(b);
        let den = pow1024_value(2);
        let num = r * 10;
        let q = num / den;
        let rem = num % den;
        let t = if 2 * rem > den || (2 * rem == den && q % 2 == 1) {
            q + 1
        } else {
            q
        };
        s.append(" - ");
        push_decimal(&mut s, t / 10);
        s.append(".");
        push_digit(&mut s, t % 10);
        s.append("MB");
        proof {
            reveal_strlit(".");
            assert(t == size_tenths(b as nat, 2));
            assert(s@ =~= head + " - "@ + megabytes_text(b as nat));
        }
    } else {
        assert(s@ =~= head + Seq::<char>::empty());
    }
    s
}

} // verus!
