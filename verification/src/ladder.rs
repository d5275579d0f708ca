//! The fixed permission-fallback ladders: ordered lists of access-right
//! combinations tried in sequence against a process until one succeeds in
//! opening a handle.  The lists are kept as data so the policy can be
//! examined and tested independently of the operating-system calls that
//! consume it.

use vstd::prelude::*;

verus! {

/// Right to change a process's scheduling information.
pub const PROCESS_SET_INFORMATION: u32 = 0x0200;

/// Right to read a process's full information.
pub const PROCESS_QUERY_INFORMATION: u32 = 0x0400;

/// Right to read the limited subset of process information that protected
/// processes still expose.
pub const PROCESS_QUERY_LIMITED_INFORMATION: u32 = 0x1000;

/// Every process access right combined.
pub const PROCESS_ALL_ACCESS: u32 = 0x001F_FFFF;

/// The ladder tried when opening a process for mutation, most capable
/// request first.
pub open spec fn spec_optimize_ladder() -> Seq<u32> {
    seq![
        PROCESS_SET_INFORMATION | PROCESS_QUERY_INFORMATION,
        PROCESS_SET_INFORMATION,
        PROCESS_ALL_ACCESS,
        PROCESS_QUERY_INFORMATION,
        PROCESS_QUERY_LIMITED_INFORMATION,
    ]
}

/// The access-right ladder for mutation: each combination is tried in
/// order and the first that opens a handle short-circuits the rest.
pub fn optimize_access_ladder() -> (v: Vec<u32>)
    ensures
        v@ == spec_optimize_ladder(),
{
    let mut v: Vec<u32> = Vec::new();
    v.push(PROCESS_SET_INFORMATION | PROCESS_QUERY_INFORMATION);
    v.push(PROCESS_SET_INFORMATION);
    v.push(PROCESS_ALL_ACCESS);
    v.push(PROCESS_QUERY_INFORMATION);
    v.push(PROCESS_QUERY_LIMITED_INFORMATION);
    proof {
        assert(v@ =~= spec_optimize_ladder());
    }
    v
}

/// The ladder tried when opening a process for read-only inspection, most
/// restrictive informational right first.
pub open spec fn spec_query_ladder() -> Seq<u32> {
    seq![PROCESS_QUERY_INFORMATION, PROCESS_QUERY_LIMITED_INFORMATION]
}

/// The access-right ladder for the inspector's read-only lookups.
pub fn query_access_ladder() -> (v: Vec<u32>)
    ensures
        v@ == spec_query_ladder(),
{
    let mut w: Vec<u32> = Vec::new();
    w.push(PROCESS_QUERY_INFORMATION);
    w.push(PROCESS_QUERY_LIMITED_INFORMATION);
    proof {
        assert(w@ =~= spec_query_ladder());
    }
    w
}

} // verus!
