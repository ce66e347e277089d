//! Scenario tests for the behaviour the store guarantees: normalization on
//! create, identifier uniqueness, no partial writes, delete semantics, and
//! count/list agreement.

use pet_store::CreatePetRequest;
use pet_store::FieldPatch;
use pet_store::PetStore;
use pet_store::UpdatePetRequest;

fn req(name: &str, species: &str, owner: &str, email: &str) -> CreatePetRequest {
    CreatePetRequest {
        name: name.to_string(),
        species: species.to_string(),
        breed: None,
        age: None,
        owner_name: owner.to_string(),
        owner_email: email.to_string(),
    }
}

fn keep_all() -> UpdatePetRequest {
    UpdatePetRequest {
        name: None,
        species: None,
        breed: FieldPatch::Keep,
        age: FieldPatch::Keep,
        owner_name: None,
        owner_email: None,
    }
}

#[test]
fn create_normalizes_and_stamps() {
    let mut store = PetStore::new();
    let mut r = req("  Buddy  ", " Dog ", "  John Doe ", "  john@example.com  ");
    r.breed = Some("  Golden Retriever ".to_string());
    let pet = store.create_pet(r).unwrap();
    assert_eq!(pet.name, "Buddy");
    assert_eq!(pet.species, "Dog");
    assert_eq!(pet.owner_name, "John Doe");
    assert_eq!(pet.owner_email, "john@example.com");
    assert_eq!(pet.breed, Some("Golden Retriever".to_string()));
    assert_eq!(pet.created_at, pet.updated_at);

    // The stored record equals the returned one.
    let stored = store.get_pet(pet.id).unwrap();
    assert_eq!(stored, pet);
}

#[test]
fn created_identifiers_are_distinct() {
    let mut store = PetStore::new();
    let mut ids = Vec::new();
    for i in 0..32 {
        let pet = store
            .create_pet(req(&format!("Pet{}", i), "Dog", "Owner", "owner@example.com"))
            .unwrap();
        ids.push(pet.id);
    }
    for i in 0..ids.len() {
        for j in 0..i {
            assert_ne!(ids[i], ids[j]);
        }
    }
    assert_eq!(store.count_pets(), 32);
}

#[test]
fn empty_update_keeps_fields_and_advances_timestamp() {
    let mut store = PetStore::new();
    let mut r = req("Buddy", "Dog", "John", "john@example.com");
    r.breed = Some("Labrador".to_string());
    r.age = Some(3);
    let before = store.create_pet(r).unwrap();

    let after = store.update_pet(before.id, keep_all()).unwrap();
    assert_eq!(after.id, before.id);
    assert_eq!(after.name, before.name);
    assert_eq!(after.species, before.species);
    assert_eq!(after.breed, before.breed);
    assert_eq!(after.age, before.age);
    assert_eq!(after.owner_name, before.owner_name);
    assert_eq!(after.owner_email, before.owner_email);
    assert_eq!(after.created_at, before.created_at);
    assert!(after.updated_at >= before.updated_at);
}

#[test]
fn invalid_update_leaves_record_identical() {
    let mut store = PetStore::new();
    let before = store.create_pet(req("Buddy", "Dog", "John", "john@example.com")).unwrap();

    // A valid name change rides along with an invalid email: nothing of it
    // may be applied.
    let mut r = keep_all();
    r.name = Some("Max".to_string());
    r.owner_email = Some("not-an-email".to_string());
    assert!(store.update_pet(before.id, r).is_err());

    let stored = store.get_pet(before.id).unwrap();
    assert_eq!(stored, before);
}

#[test]
fn delete_twice_fails_second_time() {
    let mut store = PetStore::new();
    let pet = store.create_pet(req("Buddy", "Dog", "John", "john@example.com")).unwrap();

    let removed = store.delete_pet(pet.id).unwrap();
    assert_eq!(removed, pet);
    assert!(store.delete_pet(pet.id).is_err());
}

#[test]
fn count_and_list_track_deletion() {
    let mut store = PetStore::new();
    let n = 5;
    let mut ids = Vec::new();
    for i in 0..n {
        let pet = store
            .create_pet(req(&format!("Pet{}", i), "Cat", "Owner", "owner@example.com"))
            .unwrap();
        ids.push(pet.id);
    }
    let k = 2;
    store.delete_pet(ids[k]).unwrap();

    assert_eq!(store.count_pets(), n - 1);
    let listed = store.list_pets();
    assert_eq!(listed.len(), n - 1);
    assert!(listed.iter().all(|p| p.id != ids[k]));
    for (i, id) in ids.iter().enumerate() {
        if i != k {
            assert!(listed.iter().any(|p| p.id == *id));
        }
    }
}

#[test]
fn create_update_delete_round_trip() {
    let mut store = PetStore::new();
    let mut r = req("Buddy", "Dog", "John Doe", "john@example.com");
    r.breed = Some("Golden Retriever".to_string());
    r.age = Some(3);
    let pet = store.create_pet(r).unwrap();
    assert_eq!(pet.age, Some(3));

    let mut upd = keep_all();
    upd.age = FieldPatch::Assign(4);
    let updated = store.update_pet(pet.id, upd).unwrap();
    assert_eq!(updated.age, Some(4));
    assert_eq!(updated.name, pet.name);
    assert_eq!(updated.breed, pet.breed);
    assert_eq!(updated.owner_name, pet.owner_name);

    let deleted = store.delete_pet(pet.id).unwrap();
    assert_eq!(deleted, updated);
    assert!(store.get_pet(pet.id).is_none());
}

#[test]
fn invalid_email_create_leaves_store_empty() {
    let mut store = PetStore::new();
    assert!(store.create_pet(req("Buddy", "Dog", "John", "invalid-email")).is_err());
    assert_eq!(store.count_pets(), 0);
}

#[test]
fn whitespace_only_name_is_rejected() {
    let mut store = PetStore::new();
    assert!(store.create_pet(req("   ", "Dog", "John", "john@example.com")).is_err());
    assert_eq!(store.count_pets(), 0);
}
