//! The optimization controller: owns the current scan result set and the
//! privilege state, and exposes scan, optimize-all, optimize-one and
//! status-query operations.
//!
//! Operating-system work is not done here.  The caller takes the process
//! table snapshot, probes each matching process and attempts the mutations,
//! and hands the outcomes in as plain values; every decision made on those
//! values — filtering, carry-forward of the optimized flag, per-process
//! accounting, the aggregate verdict — is verified.

use vstd::prelude::*;
use crate::affinity::spec_affinity_field;
use crate::affinity::render_affinity;
use crate::errors::ControllerError;
use crate::priority::spec_priority_field;
use crate::priority::priority_label;
use crate::privileges::{SecurityContext, escalation_post, enable_required_privileges};
use crate::snapshot::{RawProcessEntry, ProcessProbe, spec_matches, unique_pids, is_target_entry};
use crate::snapshot::{lemma_matches_prefix, lemma_scan_completeness};
use crate::text::{spec_decimal, spec_trim_nuls, spec_access_denied};
use crate::text::{access_denied_string, decimal_string, trim_trailing_nuls};

verus! {

/// One record per discovered target-named process, rebuilt from scratch on
/// every scan except for the carried-forward `is_optimized` flag.
#[derive(Clone, Debug)]
pub struct ProcessInfo {
    /// The OS-assigned process id, the record's primary key.
    pub process_id: u32,
    /// The matched executable filename.
    pub process_name: String,
    /// Best-effort resolved full path, or the access sentinel.
    pub process_path: String,
    /// Set only after a successful priority mutation.
    pub priority_modified: bool,
    /// Set only after a successful affinity mutation.
    pub affinity_modified: bool,
    /// Human-readable scheduler-priority snapshot from scan time.
    pub current_priority: String,
    /// Human-readable CPU-affinity snapshot from scan time.
    pub current_affinity: String,
    /// True once any mutation succeeded, here or in a prior scan.
    pub is_optimized: bool,
}

/// What one mutation attempt against a process reported: whether any
/// access right of the fallback ladder opened a handle, and which of the
/// two sub-operations succeeded on it.
#[derive(Clone, Copy, Debug, PartialEq, Eq, Structural)]
pub struct AttemptOutcome {
    /// Some access-right combination opened a handle to the process.
    pub handle_opened: bool,
    /// The scheduling class was set to the idle class.
    pub priority_set: bool,
    /// The affinity mask was set to the last-core singleton.
    pub affinity_set: bool,
}

/// Without a handle neither sub-operation can have succeeded.
pub open spec fn outcome_wf(o: AttemptOutcome) -> bool {
    !o.handle_opened ==> !o.priority_set && !o.affinity_set
}

/// An attempt counts as a success exactly when at least one sub-operation
/// succeeded.
pub open spec fn spec_success(o: AttemptOutcome) -> bool {
    o.priority_set || o.affinity_set
}

/// How many attempts of a pass counted as successes.
pub open spec fn count_successes(outcomes: Seq<AttemptOutcome>) -> int
    decreases outcomes.len(),
{
    if outcomes.len() == 0 {
        0
    } else {
        count_successes(outcomes.drop_last()) + if spec_success(outcomes.last()) {
            1int
        } else {
            0int
        }
    }
}

/// How many records carry the optimized flag.
pub open spec fn count_optimized(records: Seq<ProcessInfo>) -> int
    decreases records.len(),
{
    if records.len() == 0 {
        0
    } else {
        count_optimized(records.drop_last()) + if records.last().is_optimized {
            1int
        } else {
            0int
        }
    }
}

/// Whether a prior record set marks `pid` as optimized.
pub open spec fn prev_optimized(records: Seq<ProcessInfo>, pid: u32) -> bool {
    exists|j: int|
        0 <= j < records.len() && records[j].process_id == pid && records[j].is_optimized
}

/// Pairwise-distinct record process ids: records are uniquely keyed by
/// process id within one scan result.
pub open spec fn unique_record_pids(records: Seq<ProcessInfo>) -> bool {
    forall|i: int, j: int|
        0 <= i < j < records.len() ==> records[i].process_id != records[j].process_id
}

/// What a freshly scanned record holds, given the snapshot entry it came
/// from, what the inspector probe resolved, and whether a prior record set
/// had marked the process optimized.
pub open spec fn fresh_record(
    entry: RawProcessEntry,
    probe: ProcessProbe,
    was_optimized: bool,
    rec: ProcessInfo,
) -> bool {
    &&& rec.process_id == entry.process_id
    &&& rec.process_name@ == spec_trim_nuls(entry.process_name@)
    &&& rec.process_path@ == match probe.path {
        Option::Some(p) => p@,
        Option::None => spec_access_denied(),
    }
    &&& rec.current_priority@ == spec_priority_field(probe.priority_class)
    &&& rec.current_affinity@ == spec_affinity_field(probe.affinity_mask)
    &&& rec.priority_modified == false
    &&& rec.affinity_modified == false
    &&& rec.is_optimized == was_optimized
}

/// What a completed scan leaves behind: one fresh record per target-named
/// table entry, in table order, each paired with its probe and carrying
/// forward the optimized flag of any prior record with the same id.
pub open spec fn scan_post(
    prior: Seq<ProcessInfo>,
    table: Seq<RawProcessEntry>,
    probes: Seq<ProcessProbe>,
    records: Seq<ProcessInfo>,
) -> bool {
    &&& records.len() == spec_matches(table).len()
    &&& forall|k: int|
        0 <= k < records.len() ==> fresh_record(
            spec_matches(table)[k],
            probes[k],
            prev_optimized(prior, spec_matches(table)[k].process_id),
            #[trigger] records[k],
        )
}

/// What one applied mutation outcome does to a record: every flag latches
/// on success and everything else is unchanged.  `is_optimized`, like the
/// modification flags, is never reset within one controller lifetime
/// except by a fresh scan: it is true once any mutation succeeded, in this
/// attempt, an earlier one, or one carried forward from a prior scan.
pub open spec fn applied(old_rec: ProcessInfo, o: AttemptOutcome, rec: ProcessInfo) -> bool {
    &&& rec.process_id == old_rec.process_id
    &&& rec.process_name == old_rec.process_name
    &&& rec.process_path == old_rec.process_path
    &&& rec.current_priority == old_rec.current_priority
    &&& rec.current_affinity == old_rec.current_affinity
    &&& rec.priority_modified == (old_rec.priority_modified || o.priority_set)
    &&& rec.affinity_modified == (old_rec.affinity_modified || o.affinity_set)
    &&& rec.is_optimized == (old_rec.is_optimized || spec_success(o))
}

/// Whether some record carries the given process id.
pub open spec fn has_pid(records: Seq<ProcessInfo>, pid: u32) -> bool {
    exists|i: int| 0 <= i < records.len() && records[i].process_id == pid
}

/// The index of the record carrying the given process id; meaningful when
/// the ids are unique and one of them is `pid`.
pub open spec fn index_of_pid(records: Seq<ProcessInfo>, pid: u32) -> int {
    choose|i: int| 0 <= i < records.len() && records[i].process_id == pid
}

/// The summary reported by a completed optimization pass.
pub open spec fn spec_optimize_summary(found: int, modified: int) -> Seq<char>
    recommends
        0 <= found,
        0 <= modified,
{
    "Process optimization completed: Found "@ + spec_decimal(found as nat)
        + " processes, Modified "@ + spec_decimal(modified as nat) + " processes"@
}

/// The summary reported for one successfully optimized process.
pub open spec fn spec_single_summary(name: Seq<char>, pid: u32) -> Seq<char> {
    "Process "@ + name + " (PID: "@ + spec_decimal(pid as nat) + ") optimized successfully"@
}

/// Renders the found/modified counts of an optimization pass.
fn optimize_summary(found: usize, modified: usize) -> (s: String)
    ensures
        s@ == spec_optimize_summary(found as int, modified as int),
{
    let mut s = "Process optimization completed: Found ".to_owned();
    let found_text = decimal_string(found as u64);
    s.append(found_text.as_str());
    s.append(" processes, Modified ");
    let modified_text = decimal_string(modified as u64);
    s.append(modified_text.as_str());
    s.append(" processes");
    s
}

/// Renders the success summary for one process.
fn single_summary(name: &String, pid: u32) -> (s: String)
    ensures
        s@ == spec_single_summary(name@, pid),
{
    let mut s = "Process ".to_owned();
    s.append(name.as_str());
    s.append(" (PID: ");
    let pid_text = decimal_string(pid as u64);
    s.append(pid_text.as_str());
    s.append(") optimized successfully");
    s
}

/// Rewrites the record at `i` with the result of one mutation attempt.
fn apply_outcome_at(records: &mut Vec<ProcessInfo>, i: usize, outcome: AttemptOutcome)
    requires
        i < old(records)@.len(),
    ensures
        final(records)@.len() == old(records)@.len(),
        applied(old(records)@[i as int], outcome, final(records)@[i as int]),
        forall|j: int|
            0 <= j < old(records)@.len() && j != i ==> final(records)@[j] == old(records)@[j],
{
    let old_rec = clone_record(&records[i]);
    let is_optimized = old_rec.is_optimized || outcome.priority_set || outcome.affinity_set;
    let new_rec = ProcessInfo {
        priority_modified: old_rec.priority_modified || outcome.priority_set,
        affinity_modified: old_rec.affinity_modified || outcome.affinity_set,
        is_optimized,
        ..old_rec
    };
    records[i] = new_rec;
}

/// Finds the first record carrying `pid`.
fn find_pid_index(records: &Vec<ProcessInfo>, pid: u32) -> (r: Option<usize>)
    ensures
        match r {
            Option::Some(i) => i < records@.len() && records@[i as int].process_id == pid,
            Option::None => !has_pid(records@, pid),
        },
{
    let mut i: usize = 0;
    while i < records.len()
        invariant
            i <= records@.len(),
            forall|j: int| 0 <= j < i ==> (#[trigger] records@[j].process_id) != pid,
        decreases records@.len() - i,
    {
        if records[i].process_id == pid {
            return Option::Some(i);
        }
        i = i + 1;
    }
    Option::None
}

/// Copies one record field for field.
fn clone_record(rec: &ProcessInfo) -> (r: ProcessInfo)
    ensures
        r == *rec,
{
    ProcessInfo {
        process_id: rec.process_id,
        process_name: rec.process_name.clone(),
        process_path: rec.process_path.clone(),
        priority_modified: rec.priority_modified,
        affinity_modified: rec.affinity_modified,
        current_priority: rec.current_priority.clone(),
        current_affinity: rec.current_affinity.clone(),
        is_optimized: rec.is_optimized,
    }
}

/// Deep, independent copy of a record set.
fn clone_records(records: &Vec<ProcessInfo>) -> (r: Vec<ProcessInfo>)
    ensures
        r@ == records@,
{
    let mut r: Vec<ProcessInfo> = Vec::new();
    let mut i: usize = 0;
    while i < records.len()
        invariant
            i <= records@.len(),
            r@ == records@.subrange(0, i as int),
        decreases records@.len() - i,
    {
        r.push(clone_record(&records[i]));
        proof {
            assert(r@ =~= records@.subrange(0, i + 1));
        }
        i = i + 1;
    }
    proof {
        assert(records@.subrange(0, records@.len() as int) =~= records@);
    }
    r
}

/// Looks a process id up in a prior record set and reports whether it was
/// marked optimized there.
fn lookup_prev_optimized(records: &Vec<ProcessInfo>, pid: u32) -> (b: bool)
    ensures
        b == prev_optimized(records@, pid),
{
    let mut i: usize = 0;
    while i < records.len()
        invariant
            i <= records@.len(),
            forall|j: int|
                0 <= j < i ==> !(#[trigger] records@[j].process_id == pid
                    && records@[j].is_optimized),
        decreases records@.len() - i,
    {
        if records[i].process_id == pid && records[i].is_optimized {
            proof {
                assert(records@[i as int].process_id == pid && records@[i as int].is_optimized);
            }
            return true;
        }
        i = i + 1;
    }
    false
}

/// The session's controller: the current record set and the privilege
/// state established at construction.
#[derive(Clone, Debug)]
pub struct AceProcessController {
    processes: Vec<ProcessInfo>,
    privileges_enabled: bool,
}

impl AceProcessController {
    /// The current record set.
    pub closed spec fn records(self) -> Seq<ProcessInfo> {
        self.processes@
    }

    /// Whether privilege escalation succeeded at construction.
    pub closed spec fn privileges(self) -> bool {
        self.privileges_enabled
    }

    /// Records are uniquely keyed by process id.
    pub open spec fn wf(self) -> bool {
        unique_record_pids(self.records())
    }

    /// Builds a controller, attempting privilege escalation on the given
    /// security context immediately; escalation is not re-attempted later.
    /// The privilege flag records whether at least one required privilege
    /// was enabled.
    pub fn new(security: &mut SecurityContext) -> (c: AceProcessController)
        ensures
            escalation_post(*old(security), *final(security)),
            final(security).wf(),
            c.records().len() == 0,
            c.privileges() == (old(security).debug_grantable
                || old(security).base_priority_grantable),
            c.wf(),
    {
        let counts = enable_required_privileges(security);
        AceProcessController { processes: Vec::new(), privileges_enabled: counts.0 >= 1 }
    }

    /// Replaces the whole record set from a process-table snapshot.
    ///
    /// `snapshot` is the table the process directory enumerated, or `None`
    /// when the system could not allocate one; `probes` holds what the
    /// inspector resolved for each target-named entry, in table order.
    /// Each match becomes one fresh record — modification flags reset,
    /// fields rebuilt from the probe — except that the optimized flag of a
    /// still-present process id is carried forward from the prior set.
    ///
    /// A failed snapshot is fatal to this scan attempt only: the prior
    /// record set, including its carried optimized flags, is left
    /// untouched so a retried scan still carries them forward.  Zero
    /// matches leave an empty set and report the `NoProcessesFound` kind —
    /// the expected steady state when the target is not running, which a
    /// caller distinguishes from a hard failure by the kind itself.
    pub fn scan_ace_guard_processes(
        &mut self,
        snapshot: Option<Vec<RawProcessEntry>>,
        probes: &Vec<ProcessProbe>,
    ) -> (r: Result<Vec<ProcessInfo>, ControllerError>)
        requires
            old(self).wf(),
            match snapshot {
                Option::Some(table) => unique_pids(table@) && probes@.len() == spec_matches(
                    table@,
                ).len(),
                Option::None => true,
            },
        ensures
            final(self).wf(),
            final(self).privileges() == old(self).privileges(),
            match snapshot {
                Option::None => {
                    &&& r matches Err(e) && e == ControllerError::SnapshotError
                    &&& *final(self) == *old(self)
                },
                Option::Some(table) => {
                    &&& scan_post(old(self).records(), table@, probes@, final(self).records())
                    &&& (spec_matches(table@).len() == 0 ==> (r matches Err(e) && e
                        == ControllerError::NoProcessesFound))
                    &&& (spec_matches(table@).len() > 0 ==> (r matches Ok(v)
                        && v@ == final(self).records()))
                },
            },
    {
        match snapshot {
            Option::None => Result::Err(ControllerError::SnapshotError),
            Option::Some(table) => {
                let prior = clone_records(&self.processes);
                self.processes = Vec::new();
                let ghost all_matches = spec_matches(table@);
                let probes_len = probes.len();
                let mut i: usize = 0;
                let mut k: usize = 0;
                proof {
                    assert(table@.subrange(0, 0) =~= Seq::<RawProcessEntry>::empty());
                }
                while i < table.len()
                    invariant
                        i <= table@.len(),
                        all_matches == spec_matches(table@),
                        probes@.len() == all_matches.len(),
                        probes_len == probes@.len(),
                        k == spec_matches(table@.subrange(0, i as int)).len(),
                        self.processes@.len() == k,
                        k <= all_matches.len(),
                        spec_matches(table@.subrange(0, i as int)) == all_matches.subrange(
                            0,
                            k as int,
                        ),
                        forall|kk: int|
                            0 <= kk < k ==> fresh_record(
                                all_matches[kk],
                                probes@[kk],
                                prev_optimized(prior@, all_matches[kk].process_id),
                                #[trigger] self.processes@[kk],
                            ),
                        prior@ == old(self).records(),
                        self.privileges_enabled == old(self).privileges(),
                    decreases table@.len() - i,
                {
                    let ghost pre = table@.subrange(0, i as int);
                    let ghost pre1 = table@.subrange(0, i + 1);
                    proof {
                        assert(pre1.drop_last() =~= pre);
                        assert(pre1.last() == table@[i as int]);
                        lemma_matches_prefix(table@, i + 1);
                    }
                    if is_target_entry(&table[i]) {
                        proof {
                            assert(spec_matches(pre1) == spec_matches(pre) + seq![
                                table@[i as int],
                            ]);
                            assert(spec_matches(pre1).len() == k + 1);
                            assert(spec_matches(pre1) == all_matches.subrange(0, k + 1));
                            assert(all_matches[k as int] == spec_matches(pre1)[k as int]);
                            assert(all_matches[k as int] == table@[i as int]);
                        }
                        let entry = &table[i];
                        let was_optimized = lookup_prev_optimized(&prior, entry.process_id);
                        let name = trim_trailing_nuls(entry.process_name.as_str());
                        let path = match &probes[k].path {
                            Option::Some(p) => p.clone(),
                            Option::None => access_denied_string(),
                        };
                        let current_priority = match probes[k].priority_class {
                            Option::Some(class) => priority_label(class),
                            Option::None => access_denied_string(),
                        };
                        let current_affinity = match probes[k].affinity_mask {
                            Option::Some(mask) => render_affinity(mask),
                            Option::None => access_denied_string(),
                        };
                        let rec = ProcessInfo {
                            process_id: entry.process_id,
                            process_name: name,
                            process_path: path,
                            priority_modified: false,
                            affinity_modified: false,
                            current_priority,
                            current_affinity,
                            is_optimized: was_optimized,
                        };
                        self.processes.push(rec);
                        proof {
                            assert(spec_matches(pre1) =~= all_matches.subrange(0, k + 1));
                        }
                        k = k + 1;
                    } else {
                        proof {
                            assert(spec_matches(pre1) == spec_matches(pre));
                            assert(spec_matches(pre1) =~= all_matches.subrange(0, k as int));
                        }
                    }
                    i = i + 1;
                }
                proof {
                    assert(table@.subrange(0, table@.len() as int) =~= table@);
                    lemma_scan_completeness(table@);
                    assert forall|i1: int, j1: int|
                        0 <= i1 < j1 < self.processes@.len() implies self.processes@[i1].process_id
                        != self.processes@[j1].process_id by {
                        assert(self.processes@[i1].process_id == all_matches[i1].process_id);
                        assert(self.processes@[j1].process_id == all_matches[j1].process_id);
                    }
                }
                if self.processes.is_empty() {
                    Result::Err(ControllerError::NoProcessesFound)
                } else {
                    Result::Ok(clone_records(&self.processes))
                }
            },
        }
    }

    /// Applies the outcomes of one optimization pass over the whole record
    /// set, one outcome per record in order, and tallies the successes.
    ///
    /// An empty record set reports `NoProcessesFound`: the caller must scan
    /// first, and an empty scan is an expected steady state.  Otherwise
    /// every record is updated from its outcome; the pass fails with
    /// `NoModificationsApplied` only when every attempt failed, and partial
    /// success is success, reported with found/modified counts.
    pub fn optimize_all_processes(&mut self, outcomes: &Vec<AttemptOutcome>) -> (r: Result<
        String,
        ControllerError,
    >)
        requires
            old(self).wf(),
            outcomes@.len() == old(self).records().len(),
            forall|i: int| 0 <= i < outcomes@.len() ==> outcome_wf(#[trigger] outcomes@[i]),
        ensures
            final(self).wf(),
            final(self).privileges() == old(self).privileges(),
            old(self).records().len() == 0 ==> *final(self) == *old(self) && (r matches Err(e)
                && e == ControllerError::NoProcessesFound),
            old(self).records().len() > 0 ==> {
                &&& final(self).records().len() == old(self).records().len()
                &&& forall|i: int|
                    0 <= i < outcomes@.len() ==> applied(
                        old(self).records()[i],
                        outcomes@[i],
                        #[trigger] final(self).records()[i],
                    )
                &&& (count_successes(outcomes@) == 0 ==> (r matches Err(e) && e
                    == ControllerError::NoModificationsApplied))
                &&& (count_successes(outcomes@) > 0 ==> (r matches Ok(s) && s@
                    == spec_optimize_summary(
                        old(self).records().len() as int,
                        count_successes(outcomes@),
                    )))
            },
    {
        let found = self.processes.len();
        if found == 0 {
            return Result::Err(ControllerError::NoProcessesFound);
        }
        let mut modified: usize = 0;
        let mut i: usize = 0;
        proof {
            assert(outcomes@.subrange(0, 0) =~= Seq::<AttemptOutcome>::empty());
        }
        while i < found
            invariant
                i <= found,
                found == self.processes@.len(),
                found == old(self).processes@.len(),
                outcomes@.len() == found,
                modified <= i,
                modified == count_successes(outcomes@.subrange(0, i as int)),
                forall|j: int|
                    0 <= j < i ==> applied(
                        old(self).processes@[j],
                        outcomes@[j],
                        #[trigger] self.processes@[j],
                    ),
                forall|j: int| i <= j < found ==> self.processes@[j] == old(self).processes@[j],
                self.privileges_enabled == old(self).privileges_enabled,
            decreases found - i,
        {
            apply_outcome_at(&mut self.processes, i, outcomes[i]);
            if outcomes[i].priority_set || outcomes[i].affinity_set {
                modified = modified + 1;
            }
            proof {
                let pre1 = outcomes@.subrange(0, i + 1);
                assert(pre1.drop_last() =~= outcomes@.subrange(0, i as int));
                assert(pre1.last() == outcomes@[i as int]);
            }
            i = i + 1;
        }
        proof {
            assert(outcomes@.subrange(0, outcomes@.len() as int) =~= outcomes@);
            assert forall|i1: int, j1: int|
                0 <= i1 < j1 < self.processes@.len() implies self.processes@[i1].process_id
                != self.processes@[j1].process_id by {
                assert(applied(old(self).processes@[i1], outcomes@[i1], self.processes@[i1]));
                assert(applied(old(self).processes@[j1], outcomes@[j1], self.processes@[j1]));
            }
        }
        if modified == 0 {
            Result::Err(ControllerError::NoModificationsApplied)
        } else {
            Result::Ok(optimize_summary(found, modified))
        }
    }

    /// Applies the outcome of one mutation attempt against a single
    /// process of the current record set.
    ///
    /// Fails with `ProcessNotFound` when `process_id` is not in the set —
    /// the caller holds a stale id and must scan first — and with
    /// `NoModificationsApplied` when the attempt itself failed.
    pub fn optimize_single_process(&mut self, process_id: u32, outcome: AttemptOutcome) -> (r:
        Result<String, ControllerError>)
        requires
            old(self).wf(),
            outcome_wf(outcome),
        ensures
            final(self).wf(),
            final(self).privileges() == old(self).privileges(),
            !has_pid(old(self).records(), process_id) ==> *final(self) == *old(self) && (
            r matches Err(e) && e == ControllerError::ProcessNotFound(process_id)),
            has_pid(old(self).records(), process_id) ==> {
                &&& final(self).records().len() == old(self).records().len()
                &&& applied(
                    old(self).records()[index_of_pid(old(self).records(), process_id)],
                    outcome,
                    final(self).records()[index_of_pid(old(self).records(), process_id)],
                )
                &&& forall|j: int|
                    0 <= j < old(self).records().len() && j != index_of_pid(
                        old(self).records(),
                        process_id,
                    ) ==> final(self).records()[j] == old(self).records()[j]
                &&& (spec_success(outcome) ==> (r matches Ok(s) && s@ == spec_single_summary(
                    old(self).records()[index_of_pid(old(self).records(), process_id)].process_name@,
                    process_id,
                )))
                &&& (!spec_success(outcome) ==> (r matches Err(e) && e
                    == ControllerError::NoModificationsApplied))
            },
    {
        match find_pid_index(&self.processes, process_id) {
            Option::None => Result::Err(ControllerError::ProcessNotFound(process_id)),
            Option::Some(i) => {
                proof {
                    assert(has_pid(self.processes@, process_id));
                    let w = index_of_pid(self.processes@, process_id);
                    assert(0 <= w < self.processes@.len() && self.processes@[w].process_id
                        == process_id);
                    assert(w == i as int);
                }
                apply_outcome_at(&mut self.processes, i, outcome);
                proof {
                    assert forall|i1: int, j1: int|
                        0 <= i1 < j1 < self.processes@.len() implies self.processes@[i1].process_id
                        != self.processes@[j1].process_id by {
                        assert(old(self).processes@[i1].process_id
                            != old(self).processes@[j1].process_id);
                    }
                }
                if outcome.priority_set || outcome.affinity_set {
                    let name = self.processes[i].process_name.clone();
                    Result::Ok(single_summary(&name, process_id))
                } else {
                    Result::Err(ControllerError::NoModificationsApplied)
                }
            },
        }
    }

    /// A snapshot copy of the current record set, not a live view.
    pub fn get_processes(&self) -> (r: Vec<ProcessInfo>)
        ensures
            r@ == self.records(),
    {
        clone_records(&self.processes)
    }

    /// Whether privilege escalation succeeded at construction.
    pub fn get_privileges_enabled(&self) -> (b: bool)
        ensures
            b == self.privileges(),
    {
        self.privileges_enabled
    }

    /// How many records the current set holds.
    pub fn get_process_count(&self) -> (n: usize)
        ensures
            n == self.records().len(),
    {
        self.processes.len()
    }

    /// How many records are marked optimized.
    pub fn get_optimized_count(&self) -> (n: usize)
        ensures
            n == count_optimized(self.records()),
    {
        let mut n: usize = 0;
        let mut i: usize = 0;
        proof {
            assert(self.records().subrange(0, 0) =~= Seq::<ProcessInfo>::empty());
        }
        while i < self.processes.len()
            invariant
                i <= self.records().len(),
                n == count_optimized(self.records().subrange(0, i as int)),
                n <= i,
            decreases self.records().len() - i,
        {
            if self.processes[i].is_optimized {
                n = n + 1;
            }
            proof {
                let pre = self.records().subrange(0, i + 1);
                assert(pre.drop_last() =~= self.records().subrange(0, i as int));
                assert(pre.last() == self.records()[i as int]);
            }
            i = i + 1;
        }
        proof {
            assert(self.records().subrange(0, self.records().len() as int) =~= self.records());
        }
        n
    }

    /// Empties the record set.
    pub fn clear_processes(&mut self)
        ensures
            final(self).records().len() == 0,
            final(self).privileges() == old(self).privileges(),
            final(self).wf(),
    {
        self.processes.clear();
    }

    /// Whether any record is held.
    pub fn has_processes(&self) -> (b: bool)
        ensures
            b == (self.records().len() > 0),
    {
        !self.processes.is_empty()
    }
}

/// Carry-forward of the optimized flag: a process id marked optimized
/// before a scan and still present in the scanned table comes out of the
/// scan marked optimized, even though its record is otherwise rebuilt with
/// both modification flags reset.
pub proof fn lemma_carry_forward(
    prior: Seq<ProcessInfo>,
    table: Seq<RawProcessEntry>,
    probes: Seq<ProcessProbe>,
    records: Seq<ProcessInfo>,
    pid: u32,
)
    requires
        scan_post(prior, table, probes, records),
        prev_optimized(prior, pid),
        exists|k: int|
            0 <= k < spec_matches(table).len() && (#[trigger] spec_matches(
                table,
            )[k].process_id) == pid,
    ensures
        exists|k: int|
            0 <= k < records.len() && (#[trigger] records[k].process_id) == pid
                && records[k].is_optimized && !records[k].priority_modified
                && !records[k].affinity_modified,
{
    let k = choose|k: int|
        0 <= k < spec_matches(table).len() && (#[trigger] spec_matches(table)[k].process_id)
            == pid;
    assert(fresh_record(
        spec_matches(table)[k],
        probes[k],
        prev_optimized(prior, spec_matches(table)[k].process_id),
        records[k],
    ));
    assert(0 <= k < records.len() && records[k].process_id == pid && records[k].is_optimized
        && !records[k].priority_modified && !records[k].affinity_modified);
}

/// Partial mutation independence: when the priority mutation fails but the
/// affinity mutation succeeds on a freshly scanned record, the priority
/// flag stays clear, the affinity flag is set, the record counts as
/// optimized, and the attempt counts as a success.
pub proof fn lemma_partial_mutation(
    old_rec: ProcessInfo,
    outcome: AttemptOutcome,
    rec: ProcessInfo,
)
    requires
        applied(old_rec, outcome, rec),
        outcome.handle_opened,
        !outcome.priority_set,
        outcome.affinity_set,
        !old_rec.priority_modified,
    ensures
        !rec.priority_modified,
        rec.affinity_modified,
        rec.is_optimized,
        spec_success(outcome),
{
}

/// Fallback ladder exhaustion: when no access right opened a handle, the
/// record is left unmodified and the attempt counts as a failure; nothing
/// is raised, the failure only enters the aggregate tally.
pub proof fn lemma_ladder_exhausted(old_rec: ProcessInfo, outcome: AttemptOutcome, rec: ProcessInfo)
    requires
        applied(old_rec, outcome, rec),
        outcome_wf(outcome),
        !outcome.handle_opened,
    ensures
        rec.priority_modified == old_rec.priority_modified,
        rec.affinity_modified == old_rec.affinity_modified,
        rec.is_optimized == old_rec.is_optimized,
        !spec_success(outcome),
{
}

/// The aggregate tally counts each successful attempt and nothing else: it
/// stays within the number of attempts, any one success makes it positive,
/// and it is zero when every attempt failed.
pub proof fn lemma_success_tally(outcomes: Seq<AttemptOutcome>)
    ensures
        0 <= count_successes(outcomes) <= outcomes.len(),
        forall|i: int|
            0 <= i < outcomes.len() && spec_success(#[trigger] outcomes[i]) ==> count_successes(
                outcomes,
            ) >= 1,
        (forall|i: int| 0 <= i < outcomes.len() ==> !spec_success(#[trigger] outcomes[i]))
            ==> count_successes(outcomes) == 0,
    decreases outcomes.len(),
{
    if outcomes.len() > 0 {
        let d = outcomes.drop_last();
        lemma_success_tally(d);
        assert forall|i: int|
            0 <= i < outcomes.len() && spec_success(#[trigger] outcomes[i]) implies count_successes(
            outcomes,
        ) >= 1 by {
            if i < outcomes.len() - 1 {
                assert(d[i] == outcomes[i]);
                assert(count_successes(d) >= 1);
            }
        }
        if forall|i: int| 0 <= i < outcomes.len() ==> !spec_success(#[trigger] outcomes[i]) {
            assert forall|i: int| 0 <= i < d.len() implies !spec_success(
                #[trigger] d[i],
            ) by {
                assert(d[i] == outcomes[i]);
            }
        }
    }
}

} // verus!
