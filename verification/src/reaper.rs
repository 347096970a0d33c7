//! The liveness reaper: evicts the connections that have stopped
//! acknowledging liveness probes.

use vstd::prelude::*;
use crate::limits::CLIENT_TIMEOUT_MS;
use crate::model::{expired, reap, ConnId, Directory};
use crate::registry::{listed, Registry};

verus! {

/// Whether a connection last acknowledged at `last_liveness` has timed out
/// at `now`.
pub fn timed_out(last_liveness: u64, now: u64) -> (out: bool)
    ensures
        out == (now as int - last_liveness as int > CLIENT_TIMEOUT_MS as int),
{
    now > last_liveness && now - last_liveness > CLIENT_TIMEOUT_MS
}

/// The registry `dir` without the first `upto` of `ids`.
spec fn without(dir: Directory, ids: Seq<String>, upto: int) -> Directory {
    Map::new(|id: ConnId| dir.dom().contains(id) && !listed(ids, upto, id), |id: ConnId| dir[id])
}

/// One scan at time `now` (milliseconds on the monotonic clock). The scan
/// first walks the registry and notes every connection whose last liveness
/// acknowledgment is more than the timeout ago; only then does it remove
/// those it noted. Returns the ids it removed, each once.
pub fn cleanup_disconnected_clients(registry: &mut Registry, now: u64) -> (removed: Vec<String>)
    ensures
        final(registry).ceiling() == old(registry).ceiling(),
        final(registry)@ == reap(old(registry)@, now),
        forall|a: int, b: int| 0 <= a < b < removed@.len() ==> removed@[a]@ != removed@[b]@,
        forall|id: ConnId|
            #[trigger] listed(removed@, removed@.len() as int, id) <==> old(registry)@.dom().contains(
                id,
            ) && expired(old(registry)@[id], now),
{
    let ghost before = registry@;
    let ids = registry.ids();
    let mut to_remove: Vec<String> = Vec::new();
    let mut i: usize = 0;
    while i < ids.len()
        invariant
            i <= ids.len(),
            registry@ == before,
            forall|a: int, b: int| 0 <= a < b < ids@.len() ==> ids@[a]@ != ids@[b]@,
            forall|a: int| 0 <= a < ids@.len() ==> before.dom().contains(#[trigger] ids@[a]@),
            forall|a: int, b: int|
                0 <= a < b < to_remove@.len() ==> to_remove@[a]@ != to_remove@[b]@,
            forall|a: int|
                0 <= a < to_remove@.len() ==> listed(ids@, i as int, #[trigger] to_remove@[a]@)
                    && expired(before[to_remove@[a]@], now),
            forall|a: int|
                0 <= a < i && expired(before[#[trigger] ids@[a]@], now) ==> listed(
                    to_remove@,
                    to_remove@.len() as int,
                    ids@[a]@,
                ),
        decreases ids.len() - i,
    {
        let ghost noted = to_remove@;
        let stale = match registry.summary(ids[i].as_str()) {
            Some(summary) => timed_out(summary.last_liveness, now),
            None => false,
        };
        if stale {
            to_remove.push(ids[i].clone());
            assert(to_remove@[noted.len() as int]@ == ids@[i as int]@);
        }
        assert forall|a: int| 0 <= a < to_remove@.len() implies listed(
            ids@,
            i + 1,
            #[trigger] to_remove@[a]@,
        ) && expired(before[to_remove@[a]@], now) by {
            if a < noted.len() {
                assert(to_remove@[a] == noted[a]);
                assert(listed(ids@, i as int, noted[a]@));
                let j = choose|j: int| 0 <= j < i && #[trigger] ids@[j]@ == noted[a]@;
                assert(ids@[j]@ == to_remove@[a]@);
            } else {
                assert(ids@[i as int]@ == to_remove@[a]@);
            }
        }
        assert forall|a: int, b: int| 0 <= a < b < to_remove@.len() implies to_remove@[a]@
            != to_remove@[b]@ by {
            if b < noted.len() {
                assert(to_remove@[a] == noted[a] && to_remove@[b] == noted[b]);
            } else {
                assert(to_remove@[a] == noted[a]);
                assert(listed(ids@, i as int, noted[a]@));
                let j = choose|j: int| 0 <= j < i && #[trigger] ids@[j]@ == noted[a]@;
                assert(ids@[j]@ != ids@[i as int]@);
            }
        }
        assert forall|a: int| 0 <= a < i + 1 && expired(before[#[trigger] ids@[a]@], now) implies listed(
            to_remove@,
            to_remove@.len() as int,
            ids@[a]@,
        ) by {
            if a < i {
                assert(listed(noted, noted.len() as int, ids@[a]@));
                let k = choose|k: int| 0 <= k < noted.len() && #[trigger] noted[k]@ == ids@[a]@;
                assert(to_remove@[k] == noted[k]);
                assert(to_remove@[k]@ == ids@[a]@);
            } else {
                assert(to_remove@[noted.len() as int]@ == ids@[a]@);
            }
        }
        i = i + 1;
    }
    proof {
        assert(without(before, to_remove@, 0) =~= before);
    }
    let mut k: usize = 0;
    while k < to_remove.len()
        invariant
            k <= to_remove.len(),
            registry.ceiling() == old(registry).ceiling(),
            registry@ == without(before, to_remove@, k as int),
        decreases to_remove.len() - k,
    {
        registry.unregister(to_remove[k].as_str());
        proof {
            let next = without(before, to_remove@, k + 1);
            assert forall|id: ConnId| listed(to_remove@, k + 1, id) <==> (listed(
                to_remove@,
                k as int,
                id,
            ) || id == to_remove@[k as int]@) by {
                if listed(to_remove@, k + 1, id) {
                    let a = choose|a: int| 0 <= a < k + 1 && #[trigger] to_remove@[a]@ == id;
                    if a < k {
                        assert(listed(to_remove@, k as int, id));
                    }
                }
                if listed(to_remove@, k as int, id) {
                    let a = choose|a: int| 0 <= a < k && #[trigger] to_remove@[a]@ == id;
                    assert(0 <= a < k + 1 && to_remove@[a]@ == id);
                }
                if id == to_remove@[k as int]@ {
                    assert(0 <= k < k + 1 && to_remove@[k as int]@ == id);
                }
            }
            assert(registry@ =~= next);
        }
        k = k + 1;
    }
    proof {
        assert forall|id: ConnId|
            #[trigger] listed(to_remove@, to_remove@.len() as int, id) <==> before.dom().contains(id)
                && expired(before[id], now) by {
            if listed(to_remove@, to_remove@.len() as int, id) {
                let a = choose|a: int| 0 <= a < to_remove@.len() && #[trigger] to_remove@[a]@ == id;
                assert(listed(ids@, ids@.len() as int, to_remove@[a]@));
                let j = choose|j: int| 0 <= j < ids@.len() && #[trigger] ids@[j]@ == to_remove@[a]@;
                assert(before.dom().contains(ids@[j]@));
            }
            if before.dom().contains(id) && expired(before[id], now) {
                let j = choose|j: int| 0 <= j < ids@.len() && #[trigger] ids@[j]@ == id;
                assert(expired(before[ids@[j]@], now));
            }
        }
        assert(registry@ =~= reap(before, now));
    }
    to_remove
}

} // verus!
