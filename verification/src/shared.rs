//! The store behind a verified reader/writer lock.
//!
//! Any number of `get`/`list`/`count` calls may run concurrently; each
//! mutation holds exclusive access, so its effects never interleave with
//! another mutation. The lock's predicate is the store invariant: every
//! release has to re-establish it, so well-formedness — valid records,
//! pairwise-distinct identifiers — holds at every instant, whatever the
//! interleaving.

use vstd::prelude::*;
use vstd::rwlock::{RwLock, RwLockPredicate};

use crate::pet::{
    create_request_error, update_request_error, CreatePetRequest, Pet, PetError, UpdatePetRequest,
};
use crate::store::PetStore;
use crate::validation::trim_of;

verus! {

/// The predicate the shared store's lock enforces on the value it guards.
pub struct StoreInv;

impl RwLockPredicate<PetStore> for StoreInv {
    open spec fn inv(self, s: PetStore) -> bool {
        s.wf()
    }
}

/// A pet store that may be shared across threads. Because the lock hides
/// the collection, contracts here state what holds of every outcome —
/// validation decides acceptance, results are well formed — while the
/// state-transition contracts live on the sequential [`PetStore`].
pub struct SharedPetStore {
    lock: RwLock<PetStore, StoreInv>,
}

impl SharedPetStore {
    /// Creates a new shared store holding no records.
    pub fn new() -> SharedPetStore {
        SharedPetStore { lock: RwLock::new(PetStore::new(), Ghost(StoreInv)) }
    }

    /// Validates and creates a record under the write lock; accepted iff
    /// the request passes every field check.
    pub fn create_pet(&self, req: CreatePetRequest) -> (r: Result<Pet, PetError>)
        ensures
            r is Ok <==> create_request_error(req) is None,
            r matches Err(e) ==> create_request_error(req) == Some(e),
            r matches Ok(p) ==> {
                &&& p.wf()
                &&& p.name@ == trim_of(req.name@)
                &&& p.species@ == trim_of(req.species@)
                &&& p.owner_name@ == trim_of(req.owner_name@)
                &&& p.owner_email@ == trim_of(req.owner_email@)
                &&& p.age == req.age
                &&& p.created_at == p.updated_at
            },
    {
        let (mut store, handle) = self.lock.acquire_write();
        let r = store.create_pet(req);
        handle.release_write(store);
        r
    }

    /// Returns a copy of the record carrying `id`, if one is live.
    pub fn get_pet(&self, id: u128) -> (r: Option<Pet>)
        ensures
            r matches Some(p) ==> p.id == id && p.wf(),
    {
        let handle = self.lock.acquire_read();
        let store = handle.borrow();
        let r = store.get_pet(id);
        proof {
            if r is Some {
                let p = r->0;
                let i = choose|i: int| 0 <= i < store@.len() && store@[i] == p;
                assert(store@[i].wf());
            }
        }
        handle.release_read();
        r
    }

    /// Returns a snapshot of all live records: each is well formed and no
    /// two carry the same identifier.
    pub fn list_pets(&self) -> (r: Vec<Pet>)
        ensures
            forall|i: int| 0 <= i < r@.len() ==> (#[trigger] r@[i]).wf(),
            forall|i: int, j: int|
                #![trigger r@[i].id, r@[j].id]
                0 <= i < j < r@.len() ==> r@[i].id != r@[j].id,
    {
        let handle = self.lock.acquire_read();
        let r = handle.borrow().list_pets();
        handle.release_read();
        r
    }

    /// Validates and updates the record carrying `id` under the write
    /// lock; a request with an invalid field is refused with that field's
    /// error and changes nothing.
    pub fn update_pet(&self, id: u128, req: UpdatePetRequest) -> (r: Result<Pet, PetError>)
        ensures
            r is Ok ==> update_request_error(req) is None,
            update_request_error(req) matches Some(e) ==> r == Err::<Pet, PetError>(e),
            r matches Ok(p) ==> p.id == id && p.wf(),
    {
        let (mut store, handle) = self.lock.acquire_write();
        let r = store.update_pet(id, req);
        handle.release_write(store);
        r
    }

    /// Removes and returns the record carrying `id` under the write lock.
    pub fn delete_pet(&self, id: u128) -> (r: Result<Pet, PetError>)
        ensures
            r matches Ok(p) ==> p.id == id && p.wf(),
            r matches Err(e) ==> e == PetError::NotFound,
    {
        let (mut store, handle) = self.lock.acquire_write();
        let ghost pre = store;
        let r = store.delete_pet(id);
        proof {
            if r is Ok {
                let p = r->Ok_0;
                let i = choose|i: int|
                    0 <= i < pre@.len() && pre@[i] == p && store@ == pre@.remove(i);
                assert(pre@[i].wf());
            }
        }
        handle.release_write(store);
        r
    }

    /// The number of live records at the instant of the call.
    pub fn count_pets(&self) -> usize {
        let handle = self.lock.acquire_read();
        let n = handle.borrow().count_pets();
        handle.release_read();
        n
    }
}

} // verus!
