//! CPU-affinity handling: rendering an affinity bitmask as the list of
//! assigned core indices, and building the singleton mask that selects the
//! machine's last logical core.

use vstd::prelude::*;
use crate::text::{spec_access_denied, spec_decimal, decimal_string};

verus! {

/// Whether bit `i` of `mask` is set.
pub open spec fn bit_set(mask: u64, i: u64) -> bool {
    mask & (1u64 << i) != 0
}

/// The indices of the set bits of `mask` below `n`, in ascending order.
pub open spec fn spec_cores_below(mask: u64, n: int) -> Seq<u64>
    decreases n,
{
    if n <= 0 {
        Seq::empty()
    } else {
        spec_cores_below(mask, n - 1) + if bit_set(mask, (n - 1) as u64) {
            seq![(n - 1) as u64]
        } else {
            Seq::empty()
        }
    }
}

/// The indices of all set bits of `mask` (64 bits scanned), ascending.
pub open spec fn spec_cores(mask: u64) -> Seq<u64> {
    spec_cores_below(mask, 64)
}

/// Collects the set-bit indices of `mask` in ascending order.
pub fn core_indices(mask: u64) -> (v: Vec<u64>)
    ensures
        v@ == spec_cores(mask),
{
    let mut v: Vec<u64> = Vec::new();
    let mut i: u64 = 0;
    while i < 64
        invariant
            i <= 64,
            v@ == spec_cores_below(mask, i as int),
        decreases 64 - i,
    {
        if mask & (1u64 << i) != 0 {
            v.push(i);
            proof {
                assert(v@ =~= spec_cores_below(mask, i + 1));
            }
        } else {
            proof {
                assert(v@ =~= spec_cores_below(mask, i + 1));
            }
        }
        i = i + 1;
    }
    v
}

/// The comma-separated decimal rendering of a core-index list.
pub open spec fn spec_join_cores(cores: Seq<u64>) -> Seq<char>
    decreases cores.len(),
{
    if cores.len() == 0 {
        Seq::empty()
    } else if cores.len() == 1 {
        spec_decimal(cores[0] as nat)
    } else {
        spec_join_cores(cores.drop_last()) + ", "@ + spec_decimal(cores.last() as nat)
    }
}

/// The rendering of an affinity mask: "No cores assigned" for an all-zero
/// mask, "Core N" for a singleton, and "Cores: i, j, k" (ascending bit
/// positions) otherwise.
pub open spec fn spec_affinity_text(mask: u64) -> Seq<char> {
    let cores = spec_cores(mask);
    if cores.len() == 0 {
        "No cores assigned"@
    } else if cores.len() == 1 {
        "Core "@ + spec_decimal(cores[0] as nat)
    } else {
        "Cores: "@ + spec_join_cores(cores)
    }
}

/// Renders a process-affinity bitmask as the assigned core indices.
pub fn render_affinity(mask: u64) -> (s: String)
    ensures
        s@ == spec_affinity_text(mask),
{
    let cores = core_indices(mask);
    if cores.len() == 0 {
        "No cores assigned".to_owned()
    } else if cores.len() == 1 {
        let mut s = "Core ".to_owned();
        let d = decimal_string(cores[0]);
        s.append(d.as_str());
        s
    } else {
        let mut joined = decimal_string(cores[0]);
        proof {
            assert(cores@.subrange(0, 1).len() == 1);
            assert(cores@.subrange(0, 1)[0] == cores@[0]);
            assert(joined@ == spec_join_cores(cores@.subrange(0, 1)));
        }
        let mut i: usize = 1;
        while i < cores.len()
            invariant
                1 <= i <= cores@.len(),
                joined@ == spec_join_cores(cores@.subrange(0, i as int)),
            decreases cores@.len() - i,
        {
            joined.append(", ");
            let d = decimal_string(cores[i]);
            joined.append(d.as_str());
            proof {
                let pre = cores@.subrange(0, i + 1);
                assert(pre.drop_last() =~= cores@.subrange(0, i as int));
                assert(pre.last() == cores@[i as int]);
                assert(joined@ =~= spec_join_cores(pre));
            }
            i = i + 1;
        }
        proof {
            assert(cores@.subrange(0, cores@.len() as int) =~= cores@);
        }
        let mut s = "Cores: ".to_owned();
        s.append(joined.as_str());
        s
    }
}

/// The affinity snapshot stored for a scan, given what the affinity probe
/// produced: the rendered mask it read, or the access sentinel when no
/// access right sufficed.
pub open spec fn spec_affinity_field(probe: Option<u64>) -> Seq<char> {
    match probe {
        Option::Some(mask) => spec_affinity_text(mask),
        Option::None => spec_access_denied(),
    }
}

/// The singleton affinity mask selecting the last logical core of a machine
/// with `core_count` cores.
pub fn last_core_mask(core_count: usize) -> (mask: u64)
    requires
        1 <= core_count <= 64,
    ensures
        mask == 1u64 << ((core_count - 1) as u64),
{
    1u64 << ((core_count - 1) as u64)
}

/// Relies on `num_cpus::get`: the number of available logical CPUs of the
/// current system, at least 1.  The value depends on the machine (and on
/// scheduler affinity of the calling thread), so nothing more is promised
/// of it.
#[verifier::external_body]
fn machine_cpu_count() -> (n: usize)
    ensures
        n >= 1,
{
    num_cpus::get()
}

/// Detects the machine's logical core count and builds the singleton mask
/// for its last core.  `None` when the count cannot be expressed in a
/// 64-bit affinity mask.
pub fn detect_last_core_mask() -> (r: Option<(usize, u64)>)
    ensures
        match r {
            Option::Some(cm) => {
                &&& 1 <= cm.0 <= 64
                &&& cm.1 == 1u64 << ((cm.0 - 1) as u64)
            },
            Option::None => true,
        },
{
    let count = machine_cpu_count();
    if count <= 64 {
        Option::Some((count, last_core_mask(count)))
    } else {
        Option::None
    }
}

} // verus!
