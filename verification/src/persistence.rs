//! The record of running tunnel processes kept on disk, so that processes
//! started before a restart are found again.

use vstd::prelude::*;
use std::collections::HashMap;
use crate::models::PersistedTunnelInfo;

verus! {

broadcast use vstd::std_specs::hash::group_hash_axioms;

/// The record written for a tunnel process when it starts (its start time aside).
pub open spec fn running_record(
    tunnel_id: i32,
    pid: u32,
    tunnel_type: Seq<char>,
    original_id: Option<String>,
    rec: PersistedTunnelInfo,
) -> bool {
    &&& rec.tunnel_id == tunnel_id
    &&& rec.pid == pid
    &&& rec.tunnel_type@ == tunnel_type
    &&& rec.original_id == original_id
}

/// Records a started tunnel process, stamped with the local time,
/// replacing an earlier record of the same tunnel.
pub fn save_running_tunnel(
    tunnels: &mut HashMap<i32, PersistedTunnelInfo>,
    tunnel_id: i32,
    pid: u32,
    tunnel_type: &str,
    original_id: Option<String>,
)
    ensures
        final(tunnels)@ == old(tunnels)@.insert(tunnel_id, final(tunnels)@[tunnel_id]),
        running_record(tunnel_id, pid, tunnel_type@, original_id, final(tunnels)@[tunnel_id]),
{
    let info = PersistedTunnelInfo {
        tunnel_id,
        pid,
        tunnel_type: tunnel_type.to_owned(),
        original_id,
        started_at: crate::clock::local_rfc3339(),
    };
    tunnels.insert(tunnel_id, info);
}

/// Drops the record of a tunnel.
pub fn remove_running_tunnel(tunnels: &mut HashMap<i32, PersistedTunnelInfo>, tunnel_id: i32)
    ensures
        final(tunnels)@ == old(tunnels)@.remove(tunnel_id),
{
    tunnels.remove(&tunnel_id);
}

/// Recording a process for a tunnel that had no record, then removing that
/// tunnel's record, leaves the records as they were.
pub proof fn record_then_remove_restores(
    records: Map<i32, PersistedTunnelInfo>,
    tunnel_id: i32,
    info: PersistedTunnelInfo,
)
    requires
        !records.contains_key(tunnel_id),
    ensures
        records.insert(tunnel_id, info).remove(tunnel_id) == records,
{
    assert(records.insert(tunnel_id, info).remove(tunnel_id) =~= records);
}

/// A copy of an optional string.
pub fn copy_opt_string(o: &Option<String>) -> (r: Option<String>)
    ensures
        r == *o,
{
    match o {
        Some(s) => Some(s.clone()),
        None => None,
    }
}

/// A copy of a process record.
pub fn copy_record(r: &PersistedTunnelInfo) -> (c: PersistedTunnelInfo)
    ensures
        c == *r,
{
    PersistedTunnelInfo {
        tunnel_id: r.tunnel_id,
        pid: r.pid,
        tunnel_type: r.tunnel_type.clone(),
        original_id: copy_opt_string(&r.original_id),
        started_at: r.started_at.clone(),
    }
}

/// The records whose process is alive, in order.
pub open spec fn alive_records(
    entries: Seq<(i32, PersistedTunnelInfo)>,
    alive: Seq<bool>,
) -> Seq<PersistedTunnelInfo>
    decreases entries.len(),
{
    if entries.len() == 0 {
        Seq::empty()
    } else {
        let rest = alive_records(entries.drop_last(), alive.take(entries.len() - 1));
        if alive[entries.len() - 1] {
            rest.push(entries.last().1)
        } else {
            rest
        }
    }
}

/// The record map rebuilt from the entries whose process is alive.
pub open spec fn alive_map(
    entries: Seq<(i32, PersistedTunnelInfo)>,
    alive: Seq<bool>,
) -> Map<i32, PersistedTunnelInfo>
    decreases entries.len(),
{
    if entries.len() == 0 {
        Map::empty()
    } else {
        let rest = alive_map(entries.drop_last(), alive.take(entries.len() - 1));
        if alive[entries.len() - 1] {
            rest.insert(entries.last().0, entries.last().1)
        } else {
            rest
        }
    }
}

/// Keeps the records whose process is still alive (`alive[k]` says so of
/// `entries[k]`): they are returned in order, and the rebuilt record map
/// holds exactly them.
pub fn recover_running_tunnels(
    entries: &Vec<(i32, PersistedTunnelInfo)>,
    alive: &Vec<bool>,
) -> (r: (Vec<PersistedTunnelInfo>, HashMap<i32, PersistedTunnelInfo>))
    requires
        alive.len() == entries.len(),
    ensures
        r.0@ == alive_records(entries@, alive@),
        r.1@ == alive_map(entries@, alive@),
{
    let mut still_running: Vec<PersistedTunnelInfo> = Vec::new();
    let mut updated: HashMap<i32, PersistedTunnelInfo> = HashMap::new();
    let mut i: usize = 0;
    assert(entries@.take(0) =~= Seq::<(i32, PersistedTunnelInfo)>::empty());
    while i < entries.len()
        invariant
            i <= entries.len() == alive.len(),
            still_running@ == alive_records(entries@.take(i as int), alive@.take(i as int)),
            updated@ == alive_map(entries@.take(i as int), alive@.take(i as int)),
        decreases entries.len() - i,
    {
        proof {
            assert(entries@.take(i + 1).drop_last() =~= entries@.take(i as int));
            assert(alive@.take(i + 1).take(i as int) =~= alive@.take(i as int));
        }
        if alive[i] {
            still_running.push(copy_record(&entries[i].1));
            updated.insert(entries[i].0, copy_record(&entries[i].1));
        }
        i = i + 1;
    }
    proof {
        assert(entries@.take(entries.len() as int) =~= entries@);
        assert(alive@.take(alive.len() as int) =~= alive@);
    }
    (still_running, updated)
}

/// The tunnel ids reported running: those found running among the
/// launcher's own processes, then each recorded id not already listed.
pub open spec fn merged_ids(running: Seq<i32>, recorded: Seq<i32>) -> Seq<i32>
    decreases recorded.len(),
{
    if recorded.len() == 0 {
        running
    } else {
        let r = merged_ids(running, recorded.drop_last());
        if r.contains(recorded.last()) {
            r
        } else {
            r.push(recorded.last())
        }
    }
}

} // verus!

verus! {

/// Whether `v` holds `x`.
pub fn contains_id(v: &Vec<i32>, x: i32) -> (b: bool)
    ensures
        b == v@.contains(x),
{
    let mut i: usize = 0;
    while i < v.len()
        invariant
            i <= v.len(),
            forall|k: int| 0 <= k < i ==> v@[k] != x,
        decreases v.len() - i,
    {
        if v[i] == x {
            assert(v@[i as int] == x);
            return true;
        }
        i = i + 1;
    }
    false
}

/// The ids of the recorded processes, in order.
pub open spec fn record_ids(recorded: Seq<PersistedTunnelInfo>) -> Seq<i32> {
    recorded.map_values(|r: PersistedTunnelInfo| r.tunnel_id)
}

/// Adds to the running tunnel ids each recorded tunnel id not yet listed.
pub fn merge_running_ids(running: Vec<i32>, recorded: &Vec<PersistedTunnelInfo>) -> (r: Vec<i32>)
    ensures
        r@ == merged_ids(running@, record_ids(recorded@)),
{
    let ghost ids = record_ids(recorded@);
    let ghost start = running@;
    let mut out = running;
    let mut i: usize = 0;
    assert(ids.take(0) =~= Seq::<i32>::empty());
    while i < recorded.len()
        invariant
            i <= recorded.len(),
            ids == record_ids(recorded@),
            out@ == merged_ids(start, ids.take(i as int)),
        decreases recorded.len() - i,
    {
        proof {
            assert(ids.take(i + 1).drop_last() =~= ids.take(i as int));
            assert(ids.take(i + 1).last() == recorded@[i as int].tunnel_id);
        }
        let id = recorded[i].tunnel_id;
        if !contains_id(&out, id) {
            out.push(id);
        }
        i = i + 1;
    }
    assert(ids.take(recorded.len() as int) =~= ids);
    out
}

/// Merging keeps every running id, adds every recorded id, and adds
/// nothing else; if the running ids have no repeats, neither has the result.
pub proof fn merged_ids_law(running: Seq<i32>, recorded: Seq<i32>)
    ensures
        forall|x: i32| #[trigger] merged_ids(running, recorded).contains(x) <==> (running.contains(x) || recorded.contains(x)),
        running.no_duplicates() ==> merged_ids(running, recorded).no_duplicates(),
        merged_ids(running, recorded).len() >= running.len(),
        merged_ids(running, recorded).take(running.len() as int) == running,
    decreases recorded.len(),
{
    if recorded.len() > 0 {
        let prev = recorded.drop_last();
        merged_ids_law(running, prev);
        let r = merged_ids(running, prev);
        let x = recorded.last();
        assert forall|y: i32| #[trigger] recorded.contains(y) <==> (prev.contains(y) || y == x) by {
            if recorded.contains(y) {
                let k = choose|k: int| 0 <= k < recorded.len() && recorded[k] == y;
                if k < recorded.len() - 1 {
                    assert(prev[k] == y);
                }
            }
            if prev.contains(y) {
                let k = choose|k: int| 0 <= k < prev.len() && prev[k] == y;
                assert(recorded[k] == y);
            }
            if y == x {
                assert(recorded[recorded.len() - 1] == y);
            }
        }
        if !r.contains(x) {
            assert forall|y: i32| #[trigger] r.push(x).contains(y) <==> (r.contains(y) || y == x) by {
                if r.push(x).contains(y) {
                    let k = choose|k: int| 0 <= k < r.push(x).len() && r.push(x)[k] == y;
                    if k < r.len() {
                        assert(r[k] == y);
                    }
                }
                if r.contains(y) {
                    let k = choose|k: int| 0 <= k < r.len() && r[k] == y;
                    assert(r.push(x)[k] == y);
                }
                if y == x {
                    assert(r.push(x)[r.len() as int] == y);
                }
            }
            assert(r.push(x).take(running.len() as int) =~= r.take(running.len() as int));
        }
    } else {
        assert(running.take(running.len() as int) =~= running);
    }
}

} // verus!

verus! {

/// The last `n` items of `s` (all of them when there are fewer).
pub open spec fn keep_last<A>(s: Seq<A>, n: nat) -> Seq<A> {
    if s.len() > n {
        s.skip(s.len() - n)
    } else {
        s
    }
}

/// Keeps the last `max_lines` items, dropping older ones.
pub fn keep_last_lines<A>(lines: Vec<A>, max_lines: usize) -> (r: Vec<A>)
    ensures
        r@ == keep_last(lines@, max_lines as nat),
{
    let mut lines = lines;
    let n = lines.len();
    if n > max_lines {
        lines.split_off(n - max_lines)
    } else {
        lines
    }
}

} // verus!

verus! {

/// How many of the flags are set.
pub open spec fn count_alive(alive: Seq<bool>) -> nat
    decreases alive.len(),
{
    if alive.len() == 0 {
        0
    } else {
        count_alive(alive.drop_last()) + if alive.last() {
            1nat
        } else {
            0nat
        }
    }
}

/// Recovering keeps exactly the records whose process is alive: one per
/// alive entry, each alive entry's record among them, and nothing else.
pub proof fn recovered_records_are_the_alive_ones(entries: Seq<(i32, PersistedTunnelInfo)>, alive: Seq<bool>)
    requires
        alive.len() == entries.len(),
    ensures
        alive_records(entries, alive).len() == count_alive(alive),
        forall|i: int|
            0 <= i < entries.len() && alive[i] ==> alive_records(entries, alive).contains(
                (#[trigger] entries[i]).1,
            ),
        forall|r: PersistedTunnelInfo|
            #[trigger] alive_records(entries, alive).contains(r) ==> exists|i: int|
                0 <= i < entries.len() && alive[i] && (#[trigger] entries[i]).1 == r,
    decreases entries.len(),
{
    if entries.len() > 0 {
        let n = entries.len() - 1;
        let pe = entries.drop_last();
        let pa = alive.take(n);
        recovered_records_are_the_alive_ones(pe, pa);
        assert(alive.drop_last() =~= pa);
        let rest = alive_records(pe, pa);
        let out = alive_records(entries, alive);
        assert forall|i: int|
            0 <= i < entries.len() && alive[i] implies out.contains((#[trigger] entries[i]).1) by {
            if i < n {
                assert(pe[i] == entries[i]);
                assert(pa[i] == alive[i]);
                assert(rest.contains(pe[i].1));
                let j = choose|j: int| 0 <= j < rest.len() && rest[j] == pe[i].1;
                if alive[n] {
                    assert(rest.push(entries.last().1)[j] == rest[j]);
                }
            } else {
                assert(rest.push(entries.last().1)[rest.len() as int] == entries[n].1);
            }
        }
        assert forall|r: PersistedTunnelInfo| #[trigger] out.contains(r) implies exists|i: int|
            0 <= i < entries.len() && alive[i] && (#[trigger] entries[i]).1 == r by {
            let j = choose|j: int| 0 <= j < out.len() && out[j] == r;
            if alive[n] && j == rest.len() {
                assert(entries[n].1 == r);
            } else {
                assert(rest[j] == r);
                assert(rest.contains(r));
                let i = choose|i: int| 0 <= i < pe.len() && pa[i] && (#[trigger] pe[i]).1 == r;
                assert(entries[i] == pe[i]);
                assert(alive[i] == pa[i]);
            }
        }
    }
}

} // verus!
