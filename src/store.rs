use vstd::prelude::*;

use vstd::rwlock::{RwLock, RwLockPredicate};

use crate::config::{Config, ConfigView};
use crate::watcher::{ReloadWatcher, WatchError, WatcherState};

verus! {

/// Holds the one live configuration snapshot.
///
/// Besides the live value the store keeps, as ghost state, every snapshot it
/// has ever published, oldest first; the live value is always the last of them.
/// Replacement is wholesale: a reader gets either the value before a
/// replacement or the one after it, whole. `SharedConfigStore` puts it
/// behind a lock for use from many threads.
pub struct ConfigStore {
    current: Config,
    published: Ghost<Seq<ConfigView>>,
}

impl View for ConfigStore {
    type V = ConfigView;

    closed spec fn view(&self) -> ConfigView {
        self.current@
    }
}

impl ConfigStore {
    /// Every snapshot published so far, the initial one first.
    pub closed spec fn history(&self) -> Seq<ConfigView> {
        self.published@
    }

    pub closed spec fn wf(&self) -> bool {
        &&& self.current.wf()
        &&& self.published@.len() >= 1
        &&& self.published@.last() == self.current@
    }

    /// A store whose live value is the initial snapshot.
    pub fn new(initial: Config) -> (r: ConfigStore)
        requires
            initial.wf(),
        ensures
            r.wf(),
            r@ == initial@,
            r.history() == seq![initial@],
    {
        let published: Ghost<Seq<ConfigView>> = Ghost(Seq::empty().push(initial@));
        ConfigStore { current: initial, published }
    }

    /// A copy of the live snapshot.
    pub fn read(&self) -> (r: Config)
        requires
            self.wf(),
        ensures
            r.wf(),
            r@ == self@,
    {
        self.current.snapshot()
    }

    /// Publishes `new` in place of the live snapshot.
    pub fn replace(&mut self, new: Config)
        requires
            old(self).wf(),
            new.wf(),
        ensures
            final(self).wf(),
            final(self)@ == new@,
            final(self).history() == old(self).history().push(new@),
    {
        let published: Ghost<Seq<ConfigView>> = Ghost(self.published@.push(new@));
        self.current = new;
        self.published = published;
    }

    /// Whatever reads and replacements have happened, the value that a read
    /// returns is one published snapshot as a whole: its folder path and its
    /// messages come from the same load (the latest), never one field from
    /// one load and the other from another.
    pub proof fn lemma_read_is_one_snapshot(&self, r: ConfigView)
        requires
            self.wf(),
            r == self@,
        ensures
            self.history().len() >= 1,
            r == self.history().last(),
            exists|i: int|
                0 <= i < self.history().len() && (#[trigger] self.history()[i]).audio_folder_path
                    == r.audio_folder_path && self.history()[i].messages == r.messages,
    {
        assert(self.history()[self.history().len() - 1] == r);
    }
}

/// The lock invariant of a shared store: the store it guards is well formed.
pub struct StoreIsWellFormed;

impl RwLockPredicate<ConfigStore> for StoreIsWellFormed {
    open spec fn inv(self, s: ConfigStore) -> bool {
        s.wf()
    }
}

/// A `ConfigStore` behind a readers-writer lock, for use from many threads.
///
/// Readers hold the lock in shared mode for as long as it takes to copy the
/// live snapshot; a replacement holds it exclusively. A reader therefore sees
/// the snapshot before a replacement or the one after it, never a part of each.
pub struct SharedConfigStore {
    lock: RwLock<ConfigStore, StoreIsWellFormed>,
}

impl SharedConfigStore {
    pub closed spec fn wf(&self) -> bool {
        self.lock.pred() == StoreIsWellFormed
    }

    /// Puts `store` behind the lock.
    pub fn new(store: ConfigStore) -> (r: SharedConfigStore)
        requires
            store.wf(),
        ensures
            r.wf(),
    {
        SharedConfigStore { lock: RwLock::new(store, Ghost(StoreIsWellFormed)) }
    }

    /// A copy of the live snapshot, taken under the lock in shared mode.
    pub fn read(&self) -> (r: Config)
        requires
            self.wf(),
        ensures
            r.wf(),
    {
        let handle = self.lock.acquire_read();
        let r = handle.borrow().read();
        handle.release_read();
        r
    }

    /// Publishes `new` under the lock in exclusive mode.
    pub fn replace(&self, new: Config)
        requires
            self.wf(),
            new.wf(),
    {
        let (mut store, handle) = self.lock.acquire_write();
        store.replace(new);
        handle.release_write(store);
    }

    /// Hands the outcome of a reload to `watcher` while holding the lock in
    /// exclusive mode: a parsed snapshot is published, a failure leaves the
    /// live snapshot as it was and comes back as a recoverable error.
    pub fn apply_reload(&self, watcher: &mut ReloadWatcher, outcome: Result<Config, String>) -> (r:
        Result<(), WatchError>)
        requires
            self.wf(),
            old(watcher).state() == WatcherState::Parsing,
            outcome matches Ok(c) ==> c.wf(),
        ensures
            final(watcher).state() == WatcherState::Idle,
            r is Ok <==> outcome is Ok,
            outcome matches Err(m) ==> (r matches Err(e) ==> e == WatchError::ReloadParse(m)),
    {
        let (mut store, handle) = self.lock.acquire_write();
        let r = watcher.on_loaded(&mut store, outcome);
        handle.release_write(store);
        r
    }
}

} // verus!
