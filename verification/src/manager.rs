//! The managing wrapper: couples one `Storage` and one `StoreHandle` and
//! provides a controlled mutation/commit protocol. Construction always
//! performs an initial read; mutations are either committed at once
//! (`modify_store`) or kept in memory until `save`
//! (`modify_store_uncommitted`).

use vstd::prelude::*;

use crate::disk::Disk;
use crate::disk::find_entry;
use crate::storage::Storage;
use crate::storage::StoreError;
use crate::storage::StoreHandle;
use crate::storage::Storing;
use crate::storage::spec_read_files;
use crate::storage::spec_read_result;
use crate::storage::spec_read_value;
use crate::storage::spec_write_files;
use crate::storage::spec_write_result;

verus! {

/// Manages the lifecycle of one store within a `Storage` backend: reading
/// and writing the store's file and giving access to the in-memory value.
/// The value may diverge from the on-disk file between a mutation and the
/// next save or read; that divergence is the uncommitted state, intentional
/// and caller-controlled.
pub struct StoreManager<T: Storing> {
    store: Storage,
    handle: StoreHandle<T>,
}

impl<T: Storing> StoreManager<T> {
    /// The storage this manager reads and writes through.
    pub closed spec fn storage(self) -> Storage {
        self.store
    }

    /// The managed handle's identifier.
    pub closed spec fn id(self) -> Seq<char> {
        self.handle.id()
    }

    /// The managed handle's in-memory value.
    pub closed spec fn value(self) -> T {
        self.handle.value()
    }

    /// The file path this manager's reads and writes resolve to.
    pub open spec fn path(self) -> Seq<char> {
        self.storage().path_spec(T::store_type_spec(), self.id())
    }

    /// A manager over a pre-built handle; performs the initial read. Any
    /// read failure aborts construction, so no partially-initialized
    /// manager is observable.
    pub fn from_handle(storage: &Storage, disk: &mut Disk, handle: StoreHandle<T>) -> (r: Result<
        Self,
        StoreError,
    >)
        ensures
            final(disk).writable() == old(disk).writable(),
            final(disk).locked() == old(disk).locked(),
            ({
                let p = storage.path_spec(T::store_type_spec(), handle.id());
                &&& final(disk).entries() == spec_read_files::<T>(
                    old(disk).entries(),
                    old(disk).writable(),
                    p,
                )
                &&& match r {
                    Ok(m) => m.storage() == *storage && m.id() == handle.id() && m.value()
                        == spec_read_value::<T>(
                        old(disk).entries(),
                        old(disk).writable(),
                        old(disk).locked(),
                        p,
                        handle.value(),
                    ) && spec_read_result::<T>(
                        old(disk).entries(),
                        old(disk).writable(),
                        old(disk).locked(),
                        p,
                    ) == Ok::<(), StoreError>(()),
                    Err(e) => spec_read_result::<T>(
                        old(disk).entries(),
                        old(disk).writable(),
                        old(disk).locked(),
                        p,
                    ) == Err::<(), StoreError>(e),
                }
                &&& (find_entry(old(disk).entries(), p) is None && old(disk).writable()
                    ==> T::decode_spec(T::default_spec().encode_spec()) == Some(T::default_spec()))
            }),
    {
        let mut h = handle;
        match storage.read(disk, &mut h) {
            Ok(()) => Ok(StoreManager { store: storage.clone(), handle: h }),
            Err(e) => Err(e),
        }
    }

    /// A manager over a fresh handle for `store_id`; performs the initial
    /// read (bootstrapping the default file when none exists).
    pub fn new(storage: &Storage, disk: &mut Disk, store_id: &str) -> (r: Result<Self, StoreError>)
        requires
            store_id@.len() > 0,
        ensures
            final(disk).writable() == old(disk).writable(),
            final(disk).locked() == old(disk).locked(),
            ({
                let p = storage.path_spec(T::store_type_spec(), store_id@);
                &&& final(disk).entries() == spec_read_files::<T>(
                    old(disk).entries(),
                    old(disk).writable(),
                    p,
                )
                &&& match r {
                    Ok(m) => m.storage() == *storage && m.id() == store_id@ && m.value()
                        == spec_read_value::<T>(
                        old(disk).entries(),
                        old(disk).writable(),
                        old(disk).locked(),
                        p,
                        T::default_spec(),
                    ) && spec_read_result::<T>(
                        old(disk).entries(),
                        old(disk).writable(),
                        old(disk).locked(),
                        p,
                    ) == Ok::<(), StoreError>(()),
                    Err(e) => spec_read_result::<T>(
                        old(disk).entries(),
                        old(disk).writable(),
                        old(disk).locked(),
                        p,
                    ) == Err::<(), StoreError>(e),
                }
                &&& (find_entry(old(disk).entries(), p) is None && old(disk).writable()
                    ==> T::decode_spec(T::default_spec().encode_spec()) == Some(T::default_spec()))
            }),
    {
        let handle = StoreHandle::<T>::new(store_id);
        Self::from_handle(storage, disk, handle)
    }

    /// A reference to the in-memory value.
    pub fn get_store(&self) -> (v: &T)
        ensures
            *v == self.value(),
    {
        self.handle.get_store()
    }

    /// A mutable reference to the in-memory value; persists nothing by
    /// itself.
    pub fn get_store_mut(&mut self) -> (v: &mut T)
        ensures
            *v == old(self).value(),
            final(self).value() == *final(v),
            final(self).id() == old(self).id(),
            final(self).storage() == old(self).storage(),
    {
        self.handle.get_store_mut()
    }

    /// Re-reads from disk into the handle, observing modifications made
    /// behind the manager's back, and returns the refreshed value. Any
    /// uncommitted in-memory mutation is overwritten.
    pub fn get_store_alive(&mut self, disk: &mut Disk) -> (r: Result<&T, StoreError>)
        ensures
            final(disk).writable() == old(disk).writable(),
            final(disk).locked() == old(disk).locked(),
            final(self).id() == old(self).id(),
            final(self).storage() == old(self).storage(),
            ({
                let p = old(self).path();
                &&& final(disk).entries() == spec_read_files::<T>(
                    old(disk).entries(),
                    old(disk).writable(),
                    p,
                )
                &&& final(self).value() == spec_read_value::<T>(
                    old(disk).entries(),
                    old(disk).writable(),
                    old(disk).locked(),
                    p,
                    old(self).value(),
                )
                &&& match r {
                    Ok(v) => *v == final(self).value() && spec_read_result::<T>(
                        old(disk).entries(),
                        old(disk).writable(),
                        old(disk).locked(),
                        p,
                    ) == Ok::<(), StoreError>(()),
                    Err(e) => spec_read_result::<T>(
                        old(disk).entries(),
                        old(disk).writable(),
                        old(disk).locked(),
                        p,
                    ) == Err::<(), StoreError>(e),
                }
            }),
    {
        match self.store.read(disk, &mut self.handle) {
            Ok(()) => Ok(self.handle.get_store()),
            Err(e) => Err(e),
        }
    }

    /// Applies `change` to the in-memory value, then immediately saves. On
    /// save failure the in-memory mutation remains applied: the value has
    /// changed in memory but not on disk.
    pub fn modify_store<F: Fn(&T) -> T>(&mut self, disk: &mut Disk, change: F) -> (r: Result<
        (),
        StoreError,
    >)
        requires
            call_requires(change, (&old(self).value(),)),
        ensures
            final(disk).writable() == old(disk).writable(),
            final(disk).locked() == old(disk).locked(),
            final(self).id() == old(self).id(),
            final(self).storage() == old(self).storage(),
            call_ensures(change, (&old(self).value(),), final(self).value()),
            ({
                let p = old(self).path();
                &&& final(disk).entries() == spec_write_files::<T>(
                    old(disk).entries(),
                    old(disk).writable(),
                    old(disk).locked(),
                    p,
                    final(self).value(),
                )
                &&& r == spec_write_result::<T>(
                    old(disk).entries(),
                    old(disk).writable(),
                    old(disk).locked(),
                    p,
                )
            }),
            T::decode_spec(final(self).value().encode_spec()) == Some(final(self).value()),
    {
        let new_value = change(self.handle.get_store());
        self.handle.set_store(new_value);
        self.save(disk)
    }

    /// Applies `change` to the in-memory value only: no I/O, cannot fail,
    /// nothing reaches the disk until `save`.
    pub fn modify_store_uncommitted<F: Fn(&T) -> T>(&mut self, change: F)
        requires
            call_requires(change, (&old(self).value(),)),
        ensures
            final(self).id() == old(self).id(),
            final(self).storage() == old(self).storage(),
            call_ensures(change, (&old(self).value(),), final(self).value()),
    {
        let new_value = change(self.handle.get_store());
        self.handle.set_store(new_value);
    }

    /// Writes the current in-memory value to the storage.
    pub fn save(&mut self, disk: &mut Disk) -> (r: Result<(), StoreError>)
        ensures
            final(disk).writable() == old(disk).writable(),
            final(disk).locked() == old(disk).locked(),
            final(self).id() == old(self).id(),
            final(self).storage() == old(self).storage(),
            final(self).value() == old(self).value(),
            ({
                let p = old(self).path();
                &&& final(disk).entries() == spec_write_files::<T>(
                    old(disk).entries(),
                    old(disk).writable(),
                    old(disk).locked(),
                    p,
                    old(self).value(),
                )
                &&& r == spec_write_result::<T>(
                    old(disk).entries(),
                    old(disk).writable(),
                    old(disk).locked(),
                    p,
                )
            }),
            T::decode_spec(old(self).value().encode_spec()) == Some(old(self).value()),
    {
        self.store.write(disk, &mut self.handle)
    }
}

} // verus!
