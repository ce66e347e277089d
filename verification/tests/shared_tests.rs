use pet_store::CreatePetRequest;
use pet_store::FieldPatch;
use pet_store::PetError;
use pet_store::SharedPetStore;
use pet_store::UpdatePetRequest;

fn req(name: &str) -> CreatePetRequest {
    CreatePetRequest {
        name: name.to_string(),
        species: "Dog".to_string(),
        breed: None,
        age: Some(3),
        owner_name: "John Doe".to_string(),
        owner_email: "john@example.com".to_string(),
    }
}

#[test]
fn shared_store_round_trip() {
    let store = SharedPetStore::new();
    assert_eq!(store.count_pets(), 0);

    let pet = store.create_pet(req("  Buddy ")).unwrap();
    assert_eq!(pet.name, "Buddy");
    assert_eq!(pet.created_at, pet.updated_at);
    assert_eq!(store.count_pets(), 1);

    let got = store.get_pet(pet.id).unwrap();
    assert_eq!(got, pet);

    let upd = UpdatePetRequest {
        name: None,
        species: None,
        breed: FieldPatch::Assign("Labrador".to_string()),
        age: FieldPatch::Keep,
        owner_name: None,
        owner_email: None,
    };
    let updated = store.update_pet(pet.id, upd).unwrap();
    assert_eq!(updated.breed, Some("Labrador".to_string()));
    assert_eq!(updated.name, "Buddy");

    let listed = store.list_pets();
    assert_eq!(listed.len(), 1);
    assert_eq!(listed[0], updated);

    let deleted = store.delete_pet(pet.id).unwrap();
    assert_eq!(deleted, updated);
    assert_eq!(store.delete_pet(pet.id).unwrap_err(), PetError::NotFound);
    assert!(store.get_pet(pet.id).is_none());
    assert_eq!(store.count_pets(), 0);
}

#[test]
fn shared_store_rejects_invalid_requests() {
    let store = SharedPetStore::new();
    let mut r = req("Buddy");
    r.owner_email = "invalid-email".to_string();
    assert_eq!(store.create_pet(r).unwrap_err(), PetError::InvalidEmail);

    let mut r = req("Buddy");
    r.name = "   ".to_string();
    assert_eq!(store.create_pet(r).unwrap_err(), PetError::EmptyName);

    assert_eq!(store.count_pets(), 0);
}
