use vstd::prelude::*;
use vstd::rwlock::{RwLock, RwLockPredicate};

use crate::store::TopicValueStore;
use crate::sync::{record_notification, Synchronizer};
use crate::value::{NTValueType, WirePayload};

verus! {

/// What the lock keeps true of the store it guards between critical sections.
pub struct StoreInvariant;

impl RwLockPredicate<TopicValueStore> for StoreInvariant {
    open spec fn inv(self, s: TopicValueStore) -> bool {
        s.wf()
    }
}

/// A topic value store that several threads may read and write at once.
///
/// Readers share the lock and writers hold it alone, so a reader sees each
/// value either wholly before or wholly after a write, never in between.
pub struct SharedStore {
    lock: RwLock<TopicValueStore, StoreInvariant>,
}

impl SharedStore {
    #[verifier::type_invariant]
    spec fn lock_keeps_store_wf(&self) -> bool {
        self.lock.pred() == StoreInvariant
    }

    /// A shared store with no topic.
    pub fn new() -> (r: Self) {
        SharedStore { lock: RwLock::new(TopicValueStore::new(), Ghost(StoreInvariant)) }
    }

    /// A copy of the current value of `topic`, or `None` if it has none.
    pub fn get(&self, topic: &String) -> (r: Option<NTValueType>) {
        proof {
            use_type_invariant(self);
        }
        let handle = self.lock.acquire_read();
        let r = handle.borrow().get(topic);
        handle.release_read();
        r
    }

    /// Sets the value of `topic`, replacing any earlier one.
    pub fn upsert(&self, topic: String, value: NTValueType) {
        proof {
            use_type_invariant(self);
        }
        let (mut s, handle) = self.lock.acquire_write();
        s.upsert(topic, value);
        handle.release_write(s);
    }
    /// Runs `Synchronizer::poll_cycle` on the guarded store, holding the write
    /// lock for the whole cycle.
    pub fn apply_poll_cycle(&self, sync: &Synchronizer, replies: &Vec<WirePayload>) {
        proof {
            use_type_invariant(self);
        }
        let (mut s, handle) = self.lock.acquire_write();
        sync.poll_cycle(&mut s, replies);
        handle.release_write(s);
    }

    /// Runs `record_notification` on the guarded store; safe to call from a
    /// thread of the telemetry service.
    pub fn record_notification(&self, name: String, wire_type: u32, payload: &WirePayload) {
        proof {
            use_type_invariant(self);
        }
        let (mut s, handle) = self.lock.acquire_write();
        record_notification(&mut s, name, wire_type, payload);
        handle.release_write(s);
    }
}

} // verus!
