//! The pet record, the request payloads, and the error kinds.

use vstd::prelude::*;

use crate::sys::{fresh_id, now_timestamp};
use crate::validation::{
    trim_of, valid_age, valid_email, MAX_AGE, MAX_NAME_LEN, MAX_OWNER_NAME_LEN, MAX_SPECIES_LEN,
};

verus! {

/// A pet record as the store keeps it.
///
/// The identifier is a 128-bit token assigned at creation and immutable
/// afterwards; the timestamps count microseconds since the Unix epoch.
#[derive(Debug, PartialEq)]
pub struct Pet {
    pub id: u128,
    pub name: String,
    pub species: String,
    pub breed: Option<String>,
    pub age: Option<u8>,
    pub owner_name: String,
    pub owner_email: String,
    pub created_at: i64,
    pub updated_at: i64,
}

/// Request payload for creating a new pet. All fields are raw caller input;
/// the store validates and trims them.
#[derive(Debug)]
pub struct CreatePetRequest {
    pub name: String,
    pub species: String,
    pub breed: Option<String>,
    pub age: Option<u8>,
    pub owner_name: String,
    pub owner_email: String,
}

/// One optional field of an update request: leave the stored value alone,
/// clear it, or replace it. Keeping the three cases apart is what lets a
/// request say "do not touch this field" as well as "empty this field".
#[derive(Debug)]
pub enum FieldPatch<T> {
    Keep,
    Clear,
    Assign(T),
}

/// Request payload for updating an existing pet. A `None` (or `Keep`)
/// field is left as it is; a present field is validated and replaces the
/// stored value.
#[derive(Debug)]
pub struct UpdatePetRequest {
    pub name: Option<String>,
    pub species: Option<String>,
    pub breed: FieldPatch<String>,
    pub age: FieldPatch<u8>,
    pub owner_name: Option<String>,
    pub owner_email: Option<String>,
}

/// Why a store operation was refused: one variant per field-level
/// validation failure, and one for a missing identifier.
#[derive(Debug, Clone, Copy, PartialEq, Eq, Structural)]
pub enum PetError {
    EmptyName,
    NameTooLong,
    EmptySpecies,
    SpeciesTooLong,
    EmptyOwnerName,
    OwnerNameTooLong,
    InvalidEmail,
    AgeOutOfRange,
    NotFound,
}

/// The human-readable message of each error kind.
pub open spec fn message_of(e: PetError) -> Seq<char> {
    match e {
        PetError::EmptyName => "Pet name cannot be empty"@,
        PetError::NameTooLong => "Pet name must be 100 characters or less"@,
        PetError::EmptySpecies => "Species cannot be empty"@,
        PetError::SpeciesTooLong => "Species must be 50 characters or less"@,
        PetError::EmptyOwnerName => "Owner name cannot be empty"@,
        PetError::OwnerNameTooLong => "Owner name must be 100 characters or less"@,
        PetError::InvalidEmail => "Invalid email address"@,
        PetError::AgeOutOfRange => "Age must be 100 or less"@,
        PetError::NotFound => "Pet not found"@,
    }
}

impl PetError {
    /// The human-readable message for this error kind.
    pub fn message(&self) -> (r: String)
        ensures
            r@ == message_of(*self),
    {
        match self {
            PetError::EmptyName => "Pet name cannot be empty".to_owned(),
            PetError::NameTooLong => "Pet name must be 100 characters or less".to_owned(),
            PetError::EmptySpecies => "Species cannot be empty".to_owned(),
            PetError::SpeciesTooLong => "Species must be 50 characters or less".to_owned(),
            PetError::EmptyOwnerName => "Owner name cannot be empty".to_owned(),
            PetError::OwnerNameTooLong => "Owner name must be 100 characters or less".to_owned(),
            PetError::InvalidEmail => "Invalid email address".to_owned(),
            PetError::AgeOutOfRange => "Age must be 100 or less".to_owned(),
            PetError::NotFound => "Pet not found".to_owned(),
        }
    }
}

impl Pet {
    /// A record is well formed when every text field is already trimmed and
    /// within its bound, the email carries `@` and `.`, the age is in
    /// range, and the record was never updated before it was created.
    pub open spec fn wf(self) -> bool {
        &&& trim_of(self.name@) == self.name@
        &&& 0 < self.name@.len() <= MAX_NAME_LEN
        &&& trim_of(self.species@) == self.species@
        &&& 0 < self.species@.len() <= MAX_SPECIES_LEN
        &&& trim_of(self.owner_name@) == self.owner_name@
        &&& 0 < self.owner_name@.len() <= MAX_OWNER_NAME_LEN
        &&& trim_of(self.owner_email@) == self.owner_email@
        &&& valid_email(self.owner_email@)
        &&& (self.breed matches Some(b) ==> trim_of(b@) == b@)
        &&& (self.age matches Some(a) ==> valid_age(a))
        &&& self.created_at <= self.updated_at
    }

    /// Builds a record from already-normalized field values, with a fresh
    /// identifier and both timestamps set to the same current instant.
    pub fn new(
        name: String,
        species: String,
        breed: Option<String>,
        age: Option<u8>,
        owner_name: String,
        owner_email: String,
    ) -> (p: Pet)
        ensures
            p.name == name,
            p.species == species,
            p.breed == breed,
            p.age == age,
            p.owner_name == owner_name,
            p.owner_email == owner_email,
            p.created_at == p.updated_at,
    {
        let now = now_timestamp();
        Pet {
            id: fresh_id(),
            name,
            species,
            breed,
            age,
            owner_name,
            owner_email,
            created_at: now,
            updated_at: now,
        }
    }

    /// Replaces the present fields, leaves the absent ones untouched, and
    /// refreshes `updated_at`. The identifier and `created_at` never
    /// change, and `updated_at` never moves backwards, not even when the
    /// clock does.
    pub fn update(
        &mut self,
        name: Option<String>,
        species: Option<String>,
        breed: Option<Option<String>>,
        age: Option<Option<u8>>,
        owner_name: Option<String>,
        owner_email: Option<String>,
    )
        ensures
            final(self).id == old(self).id,
            final(self).created_at == old(self).created_at,
            final(self).updated_at >= old(self).updated_at,
            final(self).name == (match name {
                Some(n) => n,
                None => old(self).name,
            }),
            final(self).species == (match species {
                Some(s) => s,
                None => old(self).species,
            }),
            final(self).breed == (match breed {
                Some(b) => b,
                None => old(self).breed,
            }),
            final(self).age == (match age {
                Some(a) => a,
                None => old(self).age,
            }),
            final(self).owner_name == (match owner_name {
                Some(n) => n,
                None => old(self).owner_name,
            }),
            final(self).owner_email == (match owner_email {
                Some(e) => e,
                None => old(self).owner_email,
            }),
    {
        if let Some(n) = name {
            self.name = n;
        }
        if let Some(s) = species {
            self.species = s;
        }
        if let Some(b) = breed {
            self.breed = b;
        }
        if let Some(a) = age {
            self.age = a;
        }
        if let Some(on) = owner_name {
            self.owner_name = on;
        }
        if let Some(oe) = owner_email {
            self.owner_email = oe;
        }
        // A clock that moved backwards must not rewind updated_at.
        let now = now_timestamp();
        if now > self.updated_at {
            self.updated_at = now;
        }
    }
}

impl Clone for Pet {
    /// The copy equals the original in every field.
    fn clone(&self) -> (res: Self)
        ensures
            res == *self,
    {
        Pet {
            id: self.id,
            name: self.name.clone(),
            species: self.species.clone(),
            breed: match &self.breed {
                Some(b) => Some(b.clone()),
                None => None,
            },
            age: self.age,
            owner_name: self.owner_name.clone(),
            owner_email: self.owner_email.clone(),
            created_at: self.created_at,
            updated_at: self.updated_at,
        }
    }
}

/// The first validation failure of a create request, in the order the
/// fields are checked: name, species, owner name, email, age. `None` means
/// the request is accepted.
pub open spec fn create_request_error(req: CreatePetRequest) -> Option<PetError> {
    if trim_of(req.name@).len() == 0 {
        Some(PetError::EmptyName)
    } else if trim_of(req.name@).len() > MAX_NAME_LEN {
        Some(PetError::NameTooLong)
    } else if trim_of(req.species@).len() == 0 {
        Some(PetError::EmptySpecies)
    } else if trim_of(req.species@).len() > MAX_SPECIES_LEN {
        Some(PetError::SpeciesTooLong)
    } else if trim_of(req.owner_name@).len() == 0 {
        Some(PetError::EmptyOwnerName)
    } else if trim_of(req.owner_name@).len() > MAX_OWNER_NAME_LEN {
        Some(PetError::OwnerNameTooLong)
    } else if !valid_email(trim_of(req.owner_email@)) {
        Some(PetError::InvalidEmail)
    } else if req.age matches Some(a) && a > MAX_AGE {
        Some(PetError::AgeOutOfRange)
    } else {
        None
    }
}

/// The first validation failure of an update request, checking only the
/// fields that are present, in the order: name, species, owner name,
/// email, age. `None` means the request is accepted.
pub open spec fn update_request_error(req: UpdatePetRequest) -> Option<PetError> {
    if req.name matches Some(n) && trim_of(n@).len() == 0 {
        Some(PetError::EmptyName)
    } else if req.name matches Some(n) && trim_of(n@).len() > MAX_NAME_LEN {
        Some(PetError::NameTooLong)
    } else if req.species matches Some(s) && trim_of(s@).len() == 0 {
        Some(PetError::EmptySpecies)
    } else if req.species matches Some(s) && trim_of(s@).len() > MAX_SPECIES_LEN {
        Some(PetError::SpeciesTooLong)
    } else if req.owner_name matches Some(n) && trim_of(n@).len() == 0 {
        Some(PetError::EmptyOwnerName)
    } else if req.owner_name matches Some(n) && trim_of(n@).len() > MAX_OWNER_NAME_LEN {
        Some(PetError::OwnerNameTooLong)
    } else if req.owner_email matches Some(e) && !valid_email(trim_of(e@)) {
        Some(PetError::InvalidEmail)
    } else if req.age matches FieldPatch::Assign(a) && a > MAX_AGE {
        Some(PetError::AgeOutOfRange)
    } else {
        None
    }
}

/// How a record `p` must relate to its previous state `q` after an
/// accepted update request: identifier and creation time kept, present
/// fields replaced by their trimmed values, absent fields untouched, and
/// `updated_at` moved forward or left in place.
pub open spec fn applies_patch(q: Pet, p: Pet, req: UpdatePetRequest) -> bool {
    &&& p.id == q.id
    &&& p.created_at == q.created_at
    &&& p.updated_at >= q.updated_at
    &&& (match req.name {
        Some(n) => p.name@ == trim_of(n@),
        None => p.name == q.name,
    })
    &&& (match req.species {
        Some(s) => p.species@ == trim_of(s@),
        None => p.species == q.species,
    })
    &&& (match req.owner_name {
        Some(n) => p.owner_name@ == trim_of(n@),
        None => p.owner_name == q.owner_name,
    })
    &&& (match req.owner_email {
        Some(e) => p.owner_email@ == trim_of(e@),
        None => p.owner_email == q.owner_email,
    })
    &&& (match req.breed {
        FieldPatch::Assign(b) => p.breed matches Some(pb) && pb@ == trim_of(b@),
        FieldPatch::Clear => p.breed is None,
        FieldPatch::Keep => p.breed == q.breed,
    })
    &&& (match req.age {
        FieldPatch::Assign(a) => p.age == Some(a),
        FieldPatch::Clear => p.age is None,
        FieldPatch::Keep => p.age == q.age,
    })
}

/// Law: an update request that touches no field leaves every field of the
/// record unchanged; only `updated_at` may move, and only forward.
pub proof fn lemma_empty_update_keeps_fields(q: Pet, p: Pet, req: UpdatePetRequest)
    requires
        req.name is None,
        req.species is None,
        req.owner_name is None,
        req.owner_email is None,
        req.breed is Keep,
        req.age is Keep,
        applies_patch(q, p, req),
    ensures
        p.id == q.id,
        p.name == q.name,
        p.species == q.species,
        p.breed == q.breed,
        p.age == q.age,
        p.owner_name == q.owner_name,
        p.owner_email == q.owner_email,
        p.created_at == q.created_at,
        p.updated_at >= q.updated_at,
{
}

} // verus!
