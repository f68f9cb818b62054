//! The register watcher: polls a list of registers from the cache and runs each one's
//! handler when its value changes.
use vstd::prelude::*;
use crate::modbus::ModbusValue;

verus! {

/// Milliseconds between two passes of the watcher.
pub const WATCH_INTERVAL_MS: u64 = 10;

/// Records a new reading of the register at `i` and says whether its handler runs:
/// it does when the reading differs from the last one (the first reading differs from
/// "nothing read yet" unless the register is still unreadable).
pub fn watch_update(last_seen: &mut Vec<Option<ModbusValue>>, i: usize, new_value: Option<ModbusValue>) -> (changed: bool)
    requires
        i < old(last_seen)@.len(),
    ensures
        changed == (old(last_seen)@[i as int] != new_value),
        final(last_seen)@ == old(last_seen)@.update(i as int, new_value),
{
    let changed = last_seen[i] != new_value;
    if changed {
        last_seen.set(i, new_value);
    } else {
        proof {
            assert(old(last_seen)@.update(i as int, new_value) =~= old(last_seen)@);
        }
    }
    changed
}

/// The watcher's memory before its first pass: nothing read for any register.
pub fn initial_readings(n: usize) -> (v: Vec<Option<ModbusValue>>)
    ensures
        v@.len() == n,
        forall|k: int| 0 <= k < n ==> v@[k] is None,
{
    let mut v: Vec<Option<ModbusValue>> = Vec::new();
    let mut k: usize = 0;
    while k < n
        invariant
            k <= n,
            v@.len() == k,
            forall|j: int| 0 <= j < k ==> v@[j] is None,
        decreases n - k,
    {
        v.push(None);
        k = k + 1;
    }
    v
}

/// A handler runs once per change: reading the same value again right after an update
/// reports no change.
pub proof fn law_watch_fires_once(last_seen: Seq<Option<ModbusValue>>, i: int, new_value: Option<ModbusValue>)
    requires
        0 <= i < last_seen.len(),
    ensures
        !(last_seen.update(i, new_value)[i] != new_value),
{
}

} // verus!
