//! The rotation protocol: when the line threshold is reached, the active
//! file is renamed to `<path>.<index>` and the counters start a fresh file.
//!
//! The rename itself is I/O the host performs; this module decides, from the
//! freshly incremented line count, whether a rotation is due and what the
//! backup file is named.

use vstd::prelude::*;
use crate::decimal::{dec_rep, dec_string};

verus! {

/// Whether the line count just produced by the incrementing append makes a
/// rotation due: the threshold is enabled (nonzero) and the count equals it
/// exactly. A count that races past the threshold does not trigger a later
/// rotation; that strict-equality check is a documented limitation of the
/// protocol.
pub open spec fn rotation_due(threshold: usize, line_count: u64) -> bool {
    threshold != 0 && line_count == threshold as u64
}

/// Decide rotation from the line count the incrementing append observed.
pub fn is_rotation_due(threshold: usize, line_count: u64) -> (r: bool)
    ensures
        r == rotation_due(threshold, line_count),
{
    threshold != 0 && line_count == threshold as u64
}

/// The name of a rotated backup file: the active path, a dot, and the
/// decimal backup index.
pub open spec fn spec_backup_name(path: Seq<char>, index: nat) -> Seq<char> {
    path + seq!['.'] + dec_rep(index)
}

/// Build the backup name `<path>.<index>` for a rotation.
pub fn backup_name(path: &str, index: usize) -> (r: String)
    ensures
        r@ == spec_backup_name(path@, index as nat),
{
    let mut s = String::from_str(path);
    s.append(".");
    proof {
        reveal_strlit(".");
        assert(s@ =~= path@ + seq!['.']);
    }
    s.append(dec_string(index as u64).as_str());
    s
}

/// Evaluate rotation after an append: `Some` with the backup name for the
/// given index exactly when the threshold is enabled and the fresh line
/// count equals it; `None` otherwise (the active file keeps growing).
pub fn maybe_rotate(active_path: &str, line_count: u64, threshold: usize, rotation_index: usize) -> (r:
    Option<String>)
    ensures
        r is Some <==> rotation_due(threshold, line_count),
        r matches Some(b) ==> b@ == spec_backup_name(active_path@, rotation_index as nat),
{
    if is_rotation_due(threshold, line_count) {
        Some(backup_name(active_path, rotation_index))
    } else {
        None
    }
}

} // verus!
