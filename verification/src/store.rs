//! The in-memory record store: a flat collection of pet records with a
//! validation gate in front of every mutation.
//!
//! Well-formedness — every record valid, identifiers pairwise distinct —
//! is established by the constructor and preserved by every operation.
//! Callers receive independent copies of stored records, never aliases of
//! store-internal state. `list_pets` returns the records in insertion
//! order; that order is an added guarantee of this store, not something
//! callers of the original interface may rely on.

use vstd::prelude::*;

use crate::pet::{
    applies_patch, create_request_error, update_request_error, CreatePetRequest, FieldPatch, Pet,
    PetError, UpdatePetRequest,
};
use crate::validation::{
    format_display_name, str_contains_char, trim_of, valid_email, valid_name, valid_owner_name,
    valid_species, MAX_AGE, MAX_NAME_LEN, MAX_OWNER_NAME_LEN, MAX_SPECIES_LEN,
};

verus! {

/// True iff some record in `s` carries the identifier `id`.
pub open spec fn has_id(s: Seq<Pet>, id: u128) -> bool {
    exists|i: int| 0 <= i < s.len() && (#[trigger] s[i]).id == id
}

/// Checks a name field: trims it and enforces the name bounds, handing
/// back either the trimmed value or the exact error.
fn check_name(name: &str) -> (r: Result<String, PetError>)
    ensures
        r is Ok <==> valid_name(name@),
        r matches Ok(t) ==> t@ == trim_of(name@) && trim_of(t@) == t@,
        trim_of(name@).len() == 0 ==> r == Err::<String, PetError>(PetError::EmptyName),
        trim_of(name@).len() > MAX_NAME_LEN ==> r == Err::<String, PetError>(PetError::NameTooLong),
{
    let t = format_display_name(name);
    let len = t.as_str().unicode_len();
    if len == 0 {
        Err(PetError::EmptyName)
    } else if len > MAX_NAME_LEN {
        Err(PetError::NameTooLong)
    } else {
        Ok(t)
    }
}

/// Checks a species field: trims it and enforces the species bounds.
fn check_species(species: &str) -> (r: Result<String, PetError>)
    ensures
        r is Ok <==> valid_species(species@),
        r matches Ok(t) ==> t@ == trim_of(species@) && trim_of(t@) == t@,
        trim_of(species@).len() == 0 ==> r == Err::<String, PetError>(PetError::EmptySpecies),
        trim_of(species@).len() > MAX_SPECIES_LEN ==> r == Err::<String, PetError>(
            PetError::SpeciesTooLong,
        ),
{
    let t = format_display_name(species);
    let len = t.as_str().unicode_len();
    if len == 0 {
        Err(PetError::EmptySpecies)
    } else if len > MAX_SPECIES_LEN {
        Err(PetError::SpeciesTooLong)
    } else {
        Ok(t)
    }
}

/// Checks an owner-name field: trims it and enforces the owner-name bounds.
fn check_owner_name(name: &str) -> (r: Result<String, PetError>)
    ensures
        r is Ok <==> valid_owner_name(name@),
        r matches Ok(t) ==> t@ == trim_of(name@) && trim_of(t@) == t@,
        trim_of(name@).len() == 0 ==> r == Err::<String, PetError>(PetError::EmptyOwnerName),
        trim_of(name@).len() > MAX_OWNER_NAME_LEN ==> r == Err::<String, PetError>(
            PetError::OwnerNameTooLong,
        ),
{
    let t = format_display_name(name);
    let len = t.as_str().unicode_len();
    if len == 0 {
        Err(PetError::EmptyOwnerName)
    } else if len > MAX_OWNER_NAME_LEN {
        Err(PetError::OwnerNameTooLong)
    } else {
        Ok(t)
    }
}

/// Checks an email field: trims it and requires both `@` and `.` in the
/// trimmed value (which is also the stored value).
fn check_email(email: &str) -> (r: Result<String, PetError>)
    ensures
        r is Ok <==> valid_email(trim_of(email@)),
        r matches Ok(t) ==> t@ == trim_of(email@) && trim_of(t@) == t@ && valid_email(t@),
        r matches Err(e) ==> e == PetError::InvalidEmail,
{
    let t = format_display_name(email);
    let has_at = str_contains_char(t.as_str(), '@');
    let has_dot = str_contains_char(t.as_str(), '.');
    if has_at && has_dot {
        Ok(t)
    } else {
        Err(PetError::InvalidEmail)
    }
}

/// The in-memory pet store. It owns every record it holds; its view is the
/// sequence of records in insertion order.
pub struct PetStore {
    pets: Vec<Pet>,
}

impl View for PetStore {
    type V = Seq<Pet>;

    closed spec fn view(&self) -> Seq<Pet> {
        self.pets@
    }
}

impl PetStore {
    /// The store invariant: every record is well formed and no two records
    /// share an identifier.
    pub open spec fn wf(self) -> bool {
        &&& (forall|i: int| 0 <= i < self@.len() ==> (#[trigger] self@[i]).wf())
        &&& (forall|i: int, j: int|
            #![trigger self@[i].id, self@[j].id]
            0 <= i < j < self@.len() ==> self@[i].id != self@[j].id)
    }

    /// Creates a new, empty store.
    pub fn new() -> (s: PetStore)
        ensures
            s@ == Seq::<Pet>::empty(),
            s.wf(),
    {
        PetStore { pets: Vec::new() }
    }

    /// The index of the record carrying `id`, if any.
    fn find_index(&self, id: u128) -> (r: Option<usize>)
        ensures
            r matches Some(i) ==> i < self@.len() && self@[i as int].id == id,
            r is Some <==> has_id(self@, id),
    {
        let n = self.pets.len();
        let mut i: usize = 0;
        while i < n
            invariant
                n == self@.len(),
                i <= n,
                forall|j: int| 0 <= j < i ==> (#[trigger] self@[j]).id != id,
            decreases n - i,
        {
            if self.pets[i].id == id {
                return Some(i);
            }
            i += 1;
        }
        None
    }

    /// Replaces the record at index `i` by `p`, which must carry the same
    /// identifier; the invariant is preserved.
    fn replace_at(&mut self, i: usize, p: Pet)
        requires
            old(self).wf(),
            i < old(self)@.len(),
            p.wf(),
            p.id == old(self)@[i as int].id,
        ensures
            final(self)@ == old(self)@.update(i as int, p),
            final(self).wf(),
    {
        let _prev = self.pets.remove(i);
        self.pets.insert(i, p);
        proof {
            assert(self@ =~= old(self)@.update(i as int, p));
            assert forall|k: int| 0 <= k < self@.len() implies (#[trigger] self@[k]).id == old(self)@[k].id by {
                if k != i as int {
                    assert(self@[k] == old(self)@[k]);
                }
            }
            assert forall|k: int, l: int|
                #![trigger self@[k].id, self@[l].id]
                0 <= k < l < self@.len() implies self@[k].id != self@[l].id by {
                assert(old(self)@[k].id != old(self)@[l].id);
            }
            assert forall|k: int| 0 <= k < self@.len() implies (#[trigger] self@[k]).wf() by {
                if k != i as int {
                    assert(self@[k] == old(self)@[k]);
                }
            }
        }
    }

    /// Creates a new record after validating every field of the request.
    ///
    /// On success the stored (and returned) text fields are the trimmed
    /// inputs and both timestamps carry the same instant. The record is
    /// appended under a freshly drawn identifier; in the vanishingly rare
    /// case that the drawn identifier is already live, the record replaces
    /// the one that held it, as a keyed insert does. On failure the store
    /// is untouched and the error names the first field check that failed.
    pub fn create_pet(&mut self, req: CreatePetRequest) -> (r: Result<Pet, PetError>)
        requires
            old(self).wf(),
        ensures
            final(self).wf(),
            r is Ok <==> create_request_error(req) is None,
            match r {
                Ok(p) => {
                    &&& p.wf()
                    &&& p.name@ == trim_of(req.name@)
                    &&& p.species@ == trim_of(req.species@)
                    &&& p.owner_name@ == trim_of(req.owner_name@)
                    &&& p.owner_email@ == trim_of(req.owner_email@)
                    &&& (match req.breed {
                        Some(b) => p.breed matches Some(pb) && pb@ == trim_of(b@),
                        None => p.breed is None,
                    })
                    &&& p.age == req.age
                    &&& p.created_at == p.updated_at
                    &&& has_id(final(self)@, p.id)
                    &&& (if has_id(old(self)@, p.id) {
                        exists|i: int|
                            0 <= i < old(self)@.len() && (#[trigger] old(self)@[i]).id == p.id
                                && final(self)@ == old(self)@.update(i, p)
                    } else {
                        final(self)@ == old(self)@.push(p)
                    })
                },
                Err(e) => create_request_error(req) == Some(e) && final(self)@ == old(self)@,
            },
    {
        let name = match check_name(req.name.as_str()) {
            Ok(t) => t,
            Err(e) => {
                return Err(e);
            },
        };
        let species = match check_species(req.species.as_str()) {
            Ok(t) => t,
            Err(e) => {
                return Err(e);
            },
        };
        let owner_name = match check_owner_name(req.owner_name.as_str()) {
            Ok(t) => t,
            Err(e) => {
                return Err(e);
            },
        };
        let owner_email = match check_email(req.owner_email.as_str()) {
            Ok(t) => t,
            Err(e) => {
                return Err(e);
            },
        };
        if let Some(a) = req.age {
            if a > MAX_AGE {
                return Err(PetError::AgeOutOfRange);
            }
        }
        let breed = match req.breed {
            Some(b) => Some(format_display_name(b.as_str())),
            None => None,
        };
        let p = Pet::new(name, species, breed, req.age, owner_name, owner_email);
        let out = p.clone();
        match self.find_index(p.id) {
            Some(i) => {
                self.replace_at(i, p);
                proof {
                    assert(self@[i as int] == out);
                }
            },
            None => {
                self.pets.push(p);
                proof {
                    assert(self@[old(self)@.len() as int] == out);
                    assert forall|k: int| 0 <= k < self@.len() implies (#[trigger] self@[k]).wf() by {
                        if k < old(self)@.len() {
                            assert(self@[k] == old(self)@[k]);
                        }
                    }
                    assert forall|k: int, l: int|
                        #![trigger self@[k].id, self@[l].id]
                        0 <= k < l < self@.len() implies self@[k].id != self@[l].id by {
                        if l < old(self)@.len() {
                            assert(old(self)@[k].id != old(self)@[l].id);
                        } else {
                            assert(!has_id(old(self)@, out.id));
                            assert(self@[k] == old(self)@[k]);
                        }
                    }
                }
            },
        }
        Ok(out)
    }

    /// Returns a copy of the record carrying `id`, or `None` when no live
    /// record does.
    pub fn get_pet(&self, id: u128) -> (r: Option<Pet>)
        ensures
            r is Some <==> has_id(self@, id),
            r matches Some(p) ==> p.id == id && exists|i: int|
                0 <= i < self@.len() && #[trigger] self@[i] == p,
    {
        match self.find_index(id) {
            Some(i) => Some(self.pets[i].clone()),
            None => None,
        }
    }

    /// Returns a snapshot copy of all current records, in insertion order.
    pub fn list_pets(&self) -> (r: Vec<Pet>)
        ensures
            r@ == self@,
    {
        let n = self.pets.len();
        let mut out: Vec<Pet> = Vec::new();
        let mut i: usize = 0;
        while i < n
            invariant
                n == self@.len(),
                i <= n,
                out@.len() == i,
                forall|j: int| 0 <= j < i ==> out@[j] == self@[j],
            decreases n - i,
        {
            out.push(self.pets[i].clone());
            i += 1;
        }
        proof {
            assert(out@ =~= self@);
        }
        out
    }

    /// Updates the record carrying `id` after validating every present
    /// field of the request.
    ///
    /// Validation runs before any mutation: if any present field fails, or
    /// no record carries `id`, the store is byte-for-byte unchanged and
    /// the error is returned (a field failure wins over a missing
    /// identifier). On success the present fields are replaced by their
    /// trimmed values, absent fields stay untouched, and `updated_at`
    /// moves forward even when nothing else changed.
    pub fn update_pet(&mut self, id: u128, req: UpdatePetRequest) -> (r: Result<Pet, PetError>)
        requires
            old(self).wf(),
        ensures
            final(self).wf(),
            r is Ok <==> (update_request_error(req) is None && has_id(old(self)@, id)),
            match r {
                Ok(p) => {
                    &&& p.wf()
                    &&& p.id == id
                    &&& exists|i: int|
                        0 <= i < old(self)@.len() && (#[trigger] old(self)@[i]).id == id
                            && applies_patch(old(self)@[i], p, req) && final(self)@ == old(self)@.update(i, p)
                },
                Err(e) => {
                    &&& final(self)@ == old(self)@
                    &&& (match update_request_error(req) {
                        Some(e2) => e == e2,
                        None => e == PetError::NotFound && !has_id(old(self)@, id),
                    })
                },
            },
    {
        let name_n: Option<String> = match req.name {
            Some(n) => match check_name(n.as_str()) {
                Ok(t) => Some(t),
                Err(e) => {
                    return Err(e);
                },
            },
            None => None,
        };
        let species_n: Option<String> = match req.species {
            Some(s) => match check_species(s.as_str()) {
                Ok(t) => Some(t),
                Err(e) => {
                    return Err(e);
                },
            },
            None => None,
        };
        let owner_n: Option<String> = match req.owner_name {
            Some(n) => match check_owner_name(n.as_str()) {
                Ok(t) => Some(t),
                Err(e) => {
                    return Err(e);
                },
            },
            None => None,
        };
        let email_n: Option<String> = match req.owner_email {
            Some(e) => match check_email(e.as_str()) {
                Ok(t) => Some(t),
                Err(err) => {
                    return Err(err);
                },
            },
            None => None,
        };
        let age_n: Option<Option<u8>> = match req.age {
            FieldPatch::Assign(a) => {
                if a > MAX_AGE {
                    return Err(PetError::AgeOutOfRange);
                }
                Some(Some(a))
            },
            FieldPatch::Clear => Some(None),
            FieldPatch::Keep => None,
        };
        let breed_n: Option<Option<String>> = match req.breed {
            FieldPatch::Assign(b) => Some(Some(format_display_name(b.as_str()))),
            FieldPatch::Clear => Some(None),
            FieldPatch::Keep => None,
        };
        let i = match self.find_index(id) {
            Some(i) => i,
            None => {
                return Err(PetError::NotFound);
            },
        };
        let mut p = self.pets.remove(i);
        p.update(name_n, species_n, breed_n, age_n, owner_n, email_n);
        let out = p.clone();
        self.pets.insert(i, p);
        proof {
            assert(self@ =~= old(self)@.update(i as int, out));
            assert(applies_patch(old(self)@[i as int], out, req));
            assert forall|k: int| 0 <= k < self@.len() implies (#[trigger] self@[k]).id == old(self)@[k].id by {
                if k != i as int {
                    assert(self@[k] == old(self)@[k]);
                }
            }
            assert forall|k: int, l: int|
                #![trigger self@[k].id, self@[l].id]
                0 <= k < l < self@.len() implies self@[k].id != self@[l].id by {
                assert(old(self)@[k].id != old(self)@[l].id);
            }
            assert forall|k: int| 0 <= k < self@.len() implies (#[trigger] self@[k]).wf() by {
                if k != i as int {
                    assert(self@[k] == old(self)@[k]);
                }
            }
        }
        Ok(out)
    }

    /// Removes and returns the record carrying `id`; a second delete of the
    /// same identifier fails with `NotFound`, and no record with that
    /// identifier remains.
    pub fn delete_pet(&mut self, id: u128) -> (r: Result<Pet, PetError>)
        requires
            old(self).wf(),
        ensures
            final(self).wf(),
            r is Ok <==> has_id(old(self)@, id),
            match r {
                Ok(p) => {
                    &&& p.id == id
                    &&& exists|i: int|
                        0 <= i < old(self)@.len() && #[trigger] old(self)@[i] == p && final(self)@ == old(self)@.remove(i)
                    &&& final(self)@.len() == old(self)@.len() - 1
                    &&& !has_id(final(self)@, id)
                },
                Err(e) => e == PetError::NotFound && final(self)@ == old(self)@,
            },
    {
        match self.find_index(id) {
            Some(i) => {
                let p = self.pets.remove(i);
                proof {
                    old(self)@.remove_ensures(i as int);
                    assert forall|k: int| 0 <= k < self@.len() implies (#[trigger] self@[k]).wf()
                        && self@[k].id != id by {
                        if k < i as int {
                            assert(self@[k] == old(self)@[k]);
                        } else {
                            assert(self@[k] == old(self)@[k + 1]);
                        }
                    }
                    assert forall|k: int, l: int|
                        #![trigger self@[k].id, self@[l].id]
                        0 <= k < l < self@.len() implies self@[k].id != self@[l].id by {
                        if l < i as int {
                            assert(self@[k] == old(self)@[k] && self@[l] == old(self)@[l]);
                            assert(old(self)@[k].id != old(self)@[l].id);
                        } else if k < i as int {
                            assert(self@[k] == old(self)@[k] && self@[l] == old(self)@[l + 1]);
                            assert(old(self)@[k].id != old(self)@[l + 1].id);
                        } else {
                            assert(self@[k] == old(self)@[k + 1] && self@[l] == old(self)@[l + 1]);
                            assert(old(self)@[k + 1].id != old(self)@[l + 1].id);
                        }
                    }
                }
                Ok(p)
            },
            None => Err(PetError::NotFound),
        }
    }

    /// The number of live records, consistent with the length of a
    /// `list_pets` snapshot taken at the same instant.
    pub fn count_pets(&self) -> (n: usize)
        ensures
            n == self@.len(),
    {
        self.pets.len()
    }
}

impl Default for PetStore {
    /// The default store is empty.
    fn default() -> (s: Self)
        ensures
            s@ == Seq::<Pet>::empty(),
            s.wf(),
    {
        PetStore::new()
    }
}

/// Law: in a well-formed store, any two distinct records carry distinct
/// identifiers — identifiers are unique across all live records.
pub proof fn lemma_ids_unique(store: PetStore, i: int, j: int)
    requires
        store.wf(),
        0 <= i < store@.len(),
        0 <= j < store@.len(),
        i != j,
    ensures
        store@[i].id != store@[j].id,
{
}

} // verus!
