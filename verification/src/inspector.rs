//! The process inspector's decision half: combining best-effort probe
//! results into the per-field status strings, reading the elevation state
//! of a token, and locating processes by name in a snapshot.
//!
//! The operating-system half — opening a process with the query fallback
//! ladder and reading its scheduler state — stays with the caller, who
//! passes what it read (or that it could read nothing) as plain values.

use vstd::prelude::*;
use crate::affinity::spec_affinity_field;
use crate::affinity::render_affinity;
use crate::errors::ControllerError;
use crate::priority::spec_priority_field;
use crate::priority::priority_label;
use crate::snapshot::RawProcessEntry;
use crate::text::spec_trim_nuls;
use crate::text::{access_denied_string, trim_trailing_nuls};

verus! {

/// Combines what the priority and affinity probes resolved into the two
/// status strings of a record, substituting the access sentinel for any
/// field no access right could read.  Always total: one protected process
/// never aborts a scan.
pub fn get_process_status(priority_class: Option<u32>, affinity_mask: Option<u64>) -> (r: (
    String,
    String,
))
    ensures
        r.0@ == spec_priority_field(priority_class),
        r.1@ == spec_affinity_field(affinity_mask),
{
    let priority = match priority_class {
        Option::Some(class) => priority_label(class),
        Option::None => access_denied_string(),
    };
    let affinity = match affinity_mask {
        Option::Some(mask) => render_affinity(mask),
        Option::None => access_denied_string(),
    };
    (priority, affinity)
}

/// Whether a token's elevation field says the process runs elevated.  A
/// caller on a platform without elevation tokens passes 0 and so reads
/// `false` deterministically.
pub fn is_running_as_admin(token_is_elevated: u32) -> (r: bool)
    ensures
        r == (token_is_elevated != 0),
{
    token_is_elevated != 0
}

/// The case-folded code of a character: ASCII uppercase letters fold to
/// their lowercase counterparts, everything else is itself.
pub open spec fn spec_fold_code(c: char) -> u32 {
    if 65 <= c as u32 && c as u32 <= 90 {
        (c as u32 + 32) as u32
    } else {
        c as u32
    }
}

/// Character-wise equality up to ASCII case.
pub open spec fn eq_ignore_ascii_case(a: Seq<char>, b: Seq<char>) -> bool {
    a.len() == b.len() && forall|i: int|
        0 <= i < a.len() ==> spec_fold_code(a[i]) == spec_fold_code(b[i])
}

/// Compares two characters up to ASCII case.
fn chars_eq_ignore_case(a: char, b: char) -> (r: bool)
    ensures
        r == (spec_fold_code(a) == spec_fold_code(b)),
{
    let ca = a as u32;
    let cb = b as u32;
    let fa = if ca >= 65 && ca <= 90 {
        ca + 32
    } else {
        ca
    };
    let fb = if cb >= 65 && cb <= 90 {
        cb + 32
    } else {
        cb
    };
    fa == fb
}

/// Compares two strings up to ASCII case.
pub fn str_eq_ignore_ascii_case(a: &str, b: &str) -> (r: bool)
    ensures
        r == eq_ignore_ascii_case(a@, b@),
{
    let na = a.unicode_len();
    let nb = b.unicode_len();
    if na != nb {
        return false;
    }
    let mut i: usize = 0;
    while i < na
        invariant
            i <= na,
            na == a@.len(),
            na == b@.len(),
            forall|j: int| 0 <= j < i ==> spec_fold_code(a@[j]) == spec_fold_code(b@[j]),
        decreases na - i,
    {
        if !chars_eq_ignore_case(a.get_char(i), b.get_char(i)) {
            return false;
        }
        i = i + 1;
    }
    true
}

/// Whether a snapshot entry's name, NUL padding trimmed, matches a queried
/// executable name up to ASCII case.
pub open spec fn name_matches(entry_name: Seq<char>, query: Seq<char>) -> bool {
    eq_ignore_ascii_case(spec_trim_nuls(entry_name), query)
}

/// The process ids of the entries whose name matches the query, in table
/// order.
pub open spec fn spec_found_pids(table: Seq<RawProcessEntry>, query: Seq<char>) -> Seq<u32>
    decreases table.len(),
{
    if table.len() == 0 {
        Seq::empty()
    } else {
        spec_found_pids(table.drop_last(), query) + if name_matches(
            table.last().process_name@,
            query,
        ) {
            seq![table.last().process_id]
        } else {
            Seq::empty()
        }
    }
}

/// Finds every process in the snapshot whose executable name matches
/// `process_name` up to ASCII case, and fails only when there is none.
pub fn find_process_by_name(table: &Vec<RawProcessEntry>, process_name: &str) -> (r: Result<
    Vec<u32>,
    ControllerError,
>)
    ensures
        spec_found_pids(table@, process_name@).len() == 0 ==> (r matches Err(e) && e
            == ControllerError::NoProcessesFound),
        spec_found_pids(table@, process_name@).len() > 0 ==> (r matches Ok(v) && v@
            == spec_found_pids(table@, process_name@)),
{
    let mut pids: Vec<u32> = Vec::new();
    let mut i: usize = 0;
    proof {
        assert(table@.subrange(0, 0) =~= Seq::<RawProcessEntry>::empty());
        assert(pids@ =~= spec_found_pids(table@.subrange(0, 0), process_name@));
    }
    while i < table.len()
        invariant
            i <= table@.len(),
            pids@ == spec_found_pids(table@.subrange(0, i as int), process_name@),
        decreases table@.len() - i,
    {
        let trimmed = trim_trailing_nuls(table[i].process_name.as_str());
        if str_eq_ignore_ascii_case(trimmed.as_str(), process_name) {
            pids.push(table[i].process_id);
        }
        proof {
            let pre1 = table@.subrange(0, i + 1);
            assert(pre1.drop_last() =~= table@.subrange(0, i as int));
            assert(pre1.last() == table@[i as int]);
            assert(pids@ =~= spec_found_pids(pre1, process_name@));
        }
        i = i + 1;
    }
    proof {
        assert(table@.subrange(0, table@.len() as int) =~= table@);
    }
    if pids.is_empty() {
        Result::Err(ControllerError::NoProcessesFound)
    } else {
        Result::Ok(pids)
    }
}

} // verus!
