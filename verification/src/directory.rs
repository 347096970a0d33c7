//! The concurrent map that backs the registry, and what this crate takes for
//! granted of it.
//!
//! The registry owns its map and reaches it through the functions below.
//! Each one makes a single call into `dashmap`; its contract is believed,
//! not proved. No reference into the map outlives a call, so the map's
//! locks are free whenever one begins. A call that changes the map takes it
//! by `&mut`: nothing else changes it meanwhile, and it behaves as a plain
//! hash map would.

use vstd::prelude::*;
use dashmap::DashMap;
use crate::model::{empty_directory, ConnId, RecordView};
use crate::record::{ConnectionRecord, RecordSummary};

verus! {

#[verifier::external_type_specification]
#[verifier::external_body]
#[verifier::reject_recursive_types(K)]
#[verifier::reject_recursive_types(V)]
#[verifier::reject_recursive_types(S)]
pub struct ExDashMap<K, V, S>(DashMap<K, V, S>);

/// What a map holds: each key's characters, and the value of the record
/// stored under it.
pub uninterp spec fn entries(map: DashMap<String, ConnectionRecord>) -> Map<ConnId, RecordView>;

/// `DashMap::new`: a map that holds nothing.
#[verifier::external_body]
pub(crate) fn directory_new() -> (fresh: DashMap<String, ConnectionRecord>)
    ensures
        entries(fresh) == empty_directory(),
{
    DashMap::new()
}

/// `DashMap::len`: the number of entries.
#[verifier::external_body]
pub(crate) fn directory_len(map: &DashMap<String, ConnectionRecord>) -> (n: usize)
    ensures
        n == entries(*map).len(),
{
    map.len()
}

/// `DashMap::insert`: stores `value` under `key`, in place of what was there,
/// and hands back what was there. The call does not unwind.
#[verifier::external_body]
pub(crate) fn directory_insert(
    map: &mut DashMap<String, ConnectionRecord>,
    key: String,
    value: ConnectionRecord,
) -> (previous: Option<ConnectionRecord>)
    ensures
        entries(*final(map)) == entries(*old(map)).insert(key@, value@),
        match previous {
            Some(record) => entries(*old(map)).dom().contains(key@) && record@ == entries(
                *old(map),
            )[key@],
            None => !entries(*old(map)).dom().contains(key@),
        },
    no_unwind
{
    map.insert(key, value)
}

/// `DashMap::remove`: takes the entry under `key` out of the map and hands
/// its record back; a key that is not there leaves the map as it was. The
/// call does not unwind.
#[verifier::external_body]
pub(crate) fn directory_remove(map: &mut DashMap<String, ConnectionRecord>, key: &str) -> (removed:
    Option<ConnectionRecord>)
    ensures
        entries(*final(map)) == entries(*old(map)).remove(key@),
        match removed {
            Some(record) => entries(*old(map)).dom().contains(key@) && record@ == entries(
                *old(map),
            )[key@],
            None => !entries(*old(map)).dom().contains(key@),
        },
    no_unwind
{
    map.remove(key).map(|entry| entry.1)
}

/// `DashMap::get`: the summary of the record under `key`, if there is one.
#[verifier::external_body]
pub(crate) fn directory_peek(map: &DashMap<String, ConnectionRecord>, key: &str) -> (found: Option<
    RecordSummary,
>)
    ensures
        match found {
            Some(summary) => entries(*map).dom().contains(key@) && summary.describes(
                entries(*map)[key@],
            ),
            None => !entries(*map).dom().contains(key@),
        },
{
    map.get(key).map(|record| record.summary())
}

/// `DashMap::iter`, collecting a copy of every key. Each key of the map
/// comes once; the order is whatever the map walks in.
#[verifier::external_body]
pub(crate) fn directory_keys(map: &DashMap<String, ConnectionRecord>) -> (keys: Vec<String>)
    ensures
        forall|i: int, j: int| 0 <= i < j < keys@.len() ==> keys@[i]@ != keys@[j]@,
        forall|i: int| 0 <= i < keys@.len() ==> entries(*map).dom().contains(#[trigger] keys@[i]@),
        forall|id: ConnId| #[trigger]
            entries(*map).dom().contains(id) ==> exists|i: int|
                0 <= i < keys@.len() && #[trigger] keys@[i]@ == id,
{
    map.iter().map(|entry| entry.key().clone()).collect()
}

} // verus!
