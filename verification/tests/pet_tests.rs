use pet_store::Pet;

#[test]
fn test_pet_creation() {
    let pet = Pet::new(
        "Buddy".to_string(),
        "Dog".to_string(),
        Some("Golden Retriever".to_string()),
        Some(3),
        "John Doe".to_string(),
        "john@example.com".to_string(),
    );
    assert_eq!(pet.name, "Buddy");
    assert_eq!(pet.species, "Dog");
    assert_eq!(pet.age, Some(3));
}

#[test]
fn pet_update_replaces_present_fields() {
    let mut pet = Pet::new(
        "Buddy".to_string(),
        "Dog".to_string(),
        Some("Golden Retriever".to_string()),
        Some(3),
        "John Doe".to_string(),
        "john@example.com".to_string(),
    );

    let original_updated_at = pet.updated_at;
    pet.update(Some("Max".to_string()), None, None, Some(Some(4)), None, None);

    assert_eq!(pet.name, "Max");
    assert_eq!(pet.age, Some(4));
    assert_eq!(pet.species, "Dog");
    assert_eq!(pet.breed, Some("Golden Retriever".to_string()));
    assert!(pet.updated_at >= original_updated_at);
}

#[test]
fn pet_new_sets_equal_timestamps() {
    let pet = Pet::new(
        "Buddy".to_string(),
        "Dog".to_string(),
        None,
        None,
        "John Doe".to_string(),
        "john@example.com".to_string(),
    );
    assert_eq!(pet.created_at, pet.updated_at);
}

#[test]
fn pet_update_can_clear_optional_fields() {
    let mut pet = Pet::new(
        "Buddy".to_string(),
        "Dog".to_string(),
        Some("Golden Retriever".to_string()),
        Some(3),
        "John Doe".to_string(),
        "john@example.com".to_string(),
    );
    pet.update(None, None, Some(None), Some(None), None, None);
    assert_eq!(pet.breed, None);
    assert_eq!(pet.age, None);
    assert_eq!(pet.name, "Buddy");
}
