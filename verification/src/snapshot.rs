//! The process-directory model: a point-in-time process-table snapshot as a
//! sequence of (id, name) entries, and the filter that selects the entries
//! whose decoded executable name is the configured target.

use vstd::prelude::*;
use crate::text::spec_trim_nuls;
use crate::text::trim_trailing_nuls;

verus! {

/// One entry of a process-table snapshot: the process id and the decoded
/// executable name, which may still carry the trailing NUL padding of the
/// fixed-width field it was read from.
#[derive(Clone, Debug)]
pub struct RawProcessEntry {
    /// The OS-assigned process id, the entry's primary key.
    pub process_id: u32,
    /// The decoded executable name, possibly NUL-padded.
    pub process_name: String,
}

/// What the process inspector resolved for one process, each field
/// independently best-effort: `None` wherever every access right in the
/// fallback ladder was refused.
#[derive(Clone, Debug)]
pub struct ProcessProbe {
    /// The resolved full executable path.
    pub path: Option<String>,
    /// The numeric scheduling class read from the process.
    pub priority_class: Option<u32>,
    /// The CPU-affinity bitmask read from the process.
    pub affinity_mask: Option<u64>,
}

/// The executable name of the target process.
pub open spec fn spec_target_name() -> Seq<char> {
    "SGuard64.exe"@
}

/// The configured target executable name.
pub fn target_process_name() -> (s: &'static str)
    ensures
        s@ == spec_target_name(),
{
    "SGuard64.exe"
}

/// Whether a decoded name field, once its NUL padding is trimmed, is
/// exactly the target executable name.
pub open spec fn is_target(name: Seq<char>) -> bool {
    spec_trim_nuls(name) == spec_target_name()
}

/// The snapshot entries whose name matches the target, in table order.
pub open spec fn spec_matches(table: Seq<RawProcessEntry>) -> Seq<RawProcessEntry>
    decreases table.len(),
{
    if table.len() == 0 {
        Seq::empty()
    } else {
        spec_matches(table.drop_last()) + if is_target(table.last().process_name@) {
            seq![table.last()]
        } else {
            Seq::empty()
        }
    }
}

/// Pairwise-distinct process ids, the uniqueness a process table guarantees
/// of its primary key.
pub open spec fn unique_pids(table: Seq<RawProcessEntry>) -> bool {
    forall|i: int, j: int|
        0 <= i < j < table.len() ==> table[i].process_id != table[j].process_id
}

/// How many entries of `table` name the target executable.
pub open spec fn count_target(table: Seq<RawProcessEntry>) -> int
    decreases table.len(),
{
    if table.len() == 0 {
        0
    } else {
        count_target(table.drop_last()) + if is_target(table.last().process_name@) {
            1int
        } else {
            0int
        }
    }
}

/// Every matched process id is the id of some table entry.
proof fn lemma_matches_pids_in(table: Seq<RawProcessEntry>)
    ensures
        forall|k: int|
            0 <= k < spec_matches(table).len() ==> exists|i: int|
                0 <= i < table.len() && table[i].process_id
                    == #[trigger] spec_matches(table)[k].process_id,
    decreases table.len(),
{
    if table.len() > 0 {
        let d = table.drop_last();
        lemma_matches_pids_in(d);
        assert forall|k: int| 0 <= k < spec_matches(table).len() implies exists|i: int|
            0 <= i < table.len() && table[i].process_id
                == #[trigger] spec_matches(table)[k].process_id by {
            if k < spec_matches(d).len() {
                assert(spec_matches(table)[k] == spec_matches(d)[k]);
                let i = choose|i: int|
                    0 <= i < d.len() && d[i].process_id == spec_matches(d)[k].process_id;
                assert(table[i].process_id == spec_matches(table)[k].process_id);
            } else {
                assert(spec_matches(table)[k] == table.last());
                assert(table[table.len() - 1].process_id
                    == spec_matches(table)[k].process_id);
            }
        }
    }
}

/// Scan completeness over the match filter: a table with N target-named
/// entries yields exactly N matches; every target-named entry is among
/// them; and when the table's process ids are unique, so are the matches'.
pub proof fn lemma_scan_completeness(table: Seq<RawProcessEntry>)
    ensures
        spec_matches(table).len() == count_target(table),
        forall|i: int|
            0 <= i < table.len() && is_target(#[trigger] table[i].process_name@)
                ==> spec_matches(table).contains(table[i]),
        unique_pids(table) ==> forall|k1: int, k2: int|
            0 <= k1 < k2 < spec_matches(table).len()
                ==> spec_matches(table)[k1].process_id != spec_matches(table)[k2].process_id,
    decreases table.len(),
{
    if table.len() > 0 {
        let d = table.drop_last();
        lemma_scan_completeness(d);
        assert forall|i: int|
            0 <= i < table.len() && is_target(
                #[trigger] table[i].process_name@,
            ) implies spec_matches(table).contains(table[i]) by {
            if i < d.len() {
                assert(d[i] == table[i]);
                let k = choose|k: int| 0 <= k < spec_matches(d).len() && spec_matches(d)[k] == d[i];
                assert(spec_matches(table)[k] == table[i]);
            } else {
                assert(spec_matches(table).last() == table[i]);
            }
        }
        if unique_pids(table) {
            assert(unique_pids(d));
            lemma_matches_pids_in(d);
            if is_target(table.last().process_name@) {
                assert forall|k1: int, k2: int|
                    0 <= k1 < k2 < spec_matches(table).len() implies spec_matches(
                    table,
                )[k1].process_id != spec_matches(table)[k2].process_id by {
                    if k2 < spec_matches(d).len() {
                        assert(spec_matches(table)[k1] == spec_matches(d)[k1]);
                        assert(spec_matches(table)[k2] == spec_matches(d)[k2]);
                    } else {
                        assert(spec_matches(table)[k1] == spec_matches(d)[k1]);
                        assert(spec_matches(table)[k2] == table.last());
                        let i = choose|i: int|
                            0 <= i < d.len() && d[i].process_id
                                == spec_matches(d)[k1].process_id;
                        assert(table[i].process_id != table[table.len() - 1].process_id);
                    }
                }
            }
        }
    }
}

/// The matches of a table prefix are a prefix of the whole table's
/// matches.
pub proof fn lemma_matches_prefix(table: Seq<RawProcessEntry>, i: int)
    requires
        0 <= i <= table.len(),
    ensures
        spec_matches(table.subrange(0, i)).len() <= spec_matches(table).len(),
        spec_matches(table.subrange(0, i)) == spec_matches(table).subrange(
            0,
            spec_matches(table.subrange(0, i)).len() as int,
        ),
    decreases table.len() - i,
{
    let m_i = spec_matches(table.subrange(0, i));
    if i == table.len() {
        assert(table.subrange(0, i) =~= table);
        assert(m_i == spec_matches(table).subrange(0, m_i.len() as int));
    } else {
        lemma_matches_prefix(table, i + 1);
        let m_i1 = spec_matches(table.subrange(0, i + 1));
        assert(table.subrange(0, i + 1).drop_last() =~= table.subrange(0, i));
        assert(table.subrange(0, i + 1).last() == table[i]);
        assert(m_i =~= m_i1.subrange(0, m_i.len() as int));
        assert(m_i =~= spec_matches(table).subrange(0, m_i.len() as int));
    }
}

/// Tests whether one snapshot entry names the target executable.
pub fn is_target_entry(entry: &RawProcessEntry) -> (r: bool)
    ensures
        r == is_target(entry.process_name@),
{
    let trimmed = trim_trailing_nuls(entry.process_name.as_str());
    let target = target_process_name().to_owned();
    trimmed == target
}

/// The process ids of the target-named entries of `table`, in table order.
/// A caller that must inspect or mutate every target process walks exactly
/// this list.
pub fn target_process_ids(table: &Vec<RawProcessEntry>) -> (pids: Vec<u32>)
    ensures
        pids@ == spec_matches(table@).map_values(|e: RawProcessEntry| e.process_id),
{
    let mut pids: Vec<u32> = Vec::new();
    let mut i: usize = 0;
    proof {
        assert(table@.subrange(0, 0) =~= Seq::<RawProcessEntry>::empty());
        assert(pids@ =~= spec_matches(table@.subrange(0, 0)).map_values(
            |e: RawProcessEntry| e.process_id,
        ));
    }
    while i < table.len()
        invariant
            i <= table@.len(),
            pids@ == spec_matches(table@.subrange(0, i as int)).map_values(
                |e: RawProcessEntry| e.process_id,
            ),
        decreases table@.len() - i,
    {
        if is_target_entry(&table[i]) {
            pids.push(table[i].process_id);
        }
        proof {
            let pre = table@.subrange(0, i + 1);
            assert(pre.drop_last() =~= table@.subrange(0, i as int));
            assert(pre.last() == table@[i as int]);
            assert(pids@ =~= spec_matches(pre).map_values(|e: RawProcessEntry| e.process_id));
        }
        i = i + 1;
    }
    proof {
        assert(table@.subrange(0, table@.len() as int) =~= table@);
    }
    pids
}

} // verus!
