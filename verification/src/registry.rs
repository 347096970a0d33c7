//! The connection registry: the directory of the connections that are open.
//!
//! It is the only state that the relay's duties share. A relay that serves
//! many connections at once keeps one registry and serializes the calls
//! below; each call is one step of the model.

use vstd::prelude::*;
use dashmap::DashMap;
use crate::directory::{
    directory_insert, directory_keys, directory_len, directory_new, directory_peek,
    directory_remove, entries,
};
use crate::envelope::Frame;
use crate::error::RelayError;
use crate::model::{
    acknowledge, bind, deliver, empty_directory, first_free, ConnId, Directory,
};
use crate::record::{ConnectionRecord, RecordSummary};

verus! {

/// Whether `id` is among the first `upto` of `ids`.
pub open spec fn listed(ids: Seq<String>, upto: int, id: ConnId) -> bool {
    exists|a: int| 0 <= a < upto && #[trigger] ids[a]@ == id
}

/// The ids that strings hold.
pub open spec fn ids_of(ids: Seq<String>) -> Seq<ConnId> {
    ids.map_values(|id: String| id@)
}

/// The directory of open connections, with its capacity ceiling.
pub struct Registry {
    clients: DashMap<String, ConnectionRecord>,
    capacity: usize,
}

impl View for Registry {
    type V = Directory;

    closed spec fn view(&self) -> Directory {
        entries(self.clients)
    }
}

impl Registry {
    #[verifier::type_invariant]
    spec fn within_capacity(&self) -> bool {
        entries(self.clients).dom().finite() && entries(self.clients).len() <= self.capacity
    }

    /// The capacity ceiling that the registry was made with.
    pub closed spec fn ceiling(&self) -> usize {
        self.capacity
    }

    /// An empty registry that admits up to `capacity` connections.
    pub fn new(capacity: usize) -> (registry: Registry)
        ensures
            registry@ == empty_directory(),
            registry.ceiling() == capacity,
    {
        Registry { clients: directory_new(), capacity }
    }

    /// The number of open connections: finitely many, and never more than
    /// the ceiling.
    pub fn len(&self) -> (n: usize)
        ensures
            self@.dom().finite(),
            n == self@.len(),
            n <= self.ceiling(),
    {
        proof {
            use_type_invariant(self);
        }
        directory_len(&self.clients)
    }

    /// The capacity ceiling.
    pub fn capacity(&self) -> (n: usize)
        ensures
            n == self.ceiling(),
    {
        self.capacity
    }

    /// What the registry knows of connection `id`, without its queue.
    pub fn summary(&self, id: &str) -> (found: Option<RecordSummary>)
        ensures
            match found {
                Some(summary) => self@.dom().contains(id@) && summary.describes(self@[id@]),
                None => !self@.dom().contains(id@),
            },
    {
        directory_peek(&self.clients, id)
    }

    /// Whether connection `id` is registered.
    pub fn contains(&self, id: &str) -> (present: bool)
        ensures
            present == self@.dom().contains(id@),
    {
        self.summary(id).is_some()
    }

    /// The ids of the open connections, each once, in no particular order.
    pub fn ids(&self) -> (ids: Vec<String>)
        ensures
            self@.dom().finite(),
            forall|i: int, j: int| 0 <= i < j < ids@.len() ==> ids@[i]@ != ids@[j]@,
            forall|i: int| 0 <= i < ids@.len() ==> self@.dom().contains(#[trigger] ids@[i]@),
            forall|id: ConnId| #[trigger]
                self@.dom().contains(id) ==> exists|i: int|
                    0 <= i < ids@.len() && #[trigger] ids@[i]@ == id,
    {
        proof {
            use_type_invariant(self);
        }
        directory_keys(&self.clients)
    }

    /// The first of `draws` that no open connection has, if there is one.
    pub fn first_free(&self, draws: &Vec<String>) -> (free: Option<String>)
        ensures
            match free {
                Some(id) => first_free(self@, ids_of(draws@)) == Some(id@),
                None => first_free(self@, ids_of(draws@)) is None,
            },
    {
        let ghost all = ids_of(draws@);
        let mut i: usize = 0;
        assert(all.skip(0) =~= all);
        while i < draws.len()
            invariant
                i <= draws.len(),
                all == ids_of(draws@),
                first_free(self@, all) == first_free(self@, all.skip(i as int)),
            decreases draws.len() - i,
        {
            proof {
                assert(all.skip(i as int)[0] == draws@[i as int]@);
                assert(all.skip(i as int).drop_first() =~= all.skip(i + 1));
            }
            if !self.contains(draws[i].as_str()) {
                return Some(draws[i].clone());
            }
            i = i + 1;
        }
        None
    }

    /// Registers `record` under `id`, unless the registry is full. A record
    /// already registered under `id` is replaced.
    pub fn register(&mut self, id: String, record: ConnectionRecord) -> (result: Result<
        (),
        RelayError,
    >)
        ensures
            final(self).ceiling() == old(self).ceiling(),
            old(self)@.len() >= old(self).ceiling() ==> result == Err::<(), RelayError>(
                RelayError::CapacityExceeded,
            ) && final(self)@ == old(self)@,
            old(self)@.len() < old(self).ceiling() ==> result == Ok::<(), RelayError>(())
                && final(self)@ == old(self)@.insert(id@, record@),
    {
        proof {
            use_type_invariant(&*self);
        }
        if directory_len(&self.clients) >= self.capacity {
            Err(RelayError::CapacityExceeded)
        } else {
            directory_insert(&mut self.clients, id, record);
            Ok(())
        }
    }

    /// Removes connection `id` and hands its record back. An id that is not
    /// registered leaves the registry as it was.
    pub fn unregister(&mut self, id: &str) -> (removed: Option<ConnectionRecord>)
        ensures
            final(self).ceiling() == old(self).ceiling(),
            final(self)@ == old(self)@.remove(id@),
            match removed {
                Some(record) => old(self)@.dom().contains(id@) && record@ == old(self)@[id@],
                None => !old(self)@.dom().contains(id@),
            },
    {
        proof {
            use_type_invariant(&*self);
        }
        directory_remove(&mut self.clients, id)
    }

    /// Offers `frame` to the queue of connection `id`, once. Returns whether
    /// the queue took it. A connection that is not registered is offered
    /// nothing, and the registry stays as it was.
    pub fn deliver(&mut self, id: &str, frame: Frame) -> (delivered: bool)
        ensures
            final(self).ceiling() == old(self).ceiling(),
            final(self)@ == deliver(old(self)@, id@, frame@, delivered),
            delivered ==> old(self)@.dom().contains(id@),
    {
        proof {
            use_type_invariant(&*self);
        }
        match directory_remove(&mut self.clients, id) {
            Some(record) => {
                let mut record = record;
                let delivered = record.outbound.enqueue(frame).is_ok();
                directory_insert(&mut self.clients, id.to_owned(), record);
                assert(self@ =~= deliver(old(self)@, id@, frame@, delivered));
                delivered
            },
            None => {
                assert(self@ =~= old(self)@);
                false
            },
        }
    }

    /// Records that connection `id` acknowledged a liveness probe at `now`.
    /// Returns whether the connection is registered.
    pub fn acknowledge(&mut self, id: &str, now: u64) -> (known: bool)
        ensures
            final(self).ceiling() == old(self).ceiling(),
            final(self)@ == acknowledge(old(self)@, id@, now),
            known == old(self)@.dom().contains(id@),
    {
        proof {
            use_type_invariant(&*self);
        }
        match directory_remove(&mut self.clients, id) {
            Some(record) => {
                let mut record = record;
                record.last_liveness = now;
                directory_insert(&mut self.clients, id.to_owned(), record);
                assert(self@ =~= acknowledge(old(self)@, id@, now));
                true
            },
            None => {
                assert(self@ =~= old(self)@);
                false
            },
        }
    }

    /// Binds connection `id` to the user `identity`, in place of any earlier
    /// binding. Returns whether the connection is registered.
    pub fn bind_identity(&mut self, id: &str, identity: u32) -> (known: bool)
        ensures
            final(self).ceiling() == old(self).ceiling(),
            final(self)@ == bind(old(self)@, id@, identity),
            known == old(self)@.dom().contains(id@),
    {
        proof {
            use_type_invariant(&*self);
        }
        match directory_remove(&mut self.clients, id) {
            Some(record) => {
                let mut record = record;
                record.identity = Some(identity);
                directory_insert(&mut self.clients, id.to_owned(), record);
                assert(self@ =~= bind(old(self)@, id@, identity));
                true
            },
            None => {
                assert(self@ =~= old(self)@);
                false
            },
        }
    }
}

} // verus!
