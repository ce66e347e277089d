use pet_store::format_display_name;
use pet_store::validate_age;
use pet_store::validate_email;
use pet_store::validate_owner_name;
use pet_store::validate_pet_name;
use pet_store::validate_species;

#[test]
fn test_validate_email() {
    assert!(validate_email("test@example.com"));
    assert!(!validate_email("invalid-email"));
    assert!(!validate_email("no-at-sign.com"));
}

#[test]
fn test_format_display_name() {
    assert_eq!(format_display_name("  John Doe  "), "John Doe");
    assert_eq!(format_display_name("Alice"), "Alice");
}

#[test]
fn test_validate_pet_name() {
    assert!(validate_pet_name("Buddy").is_ok());
    assert!(validate_pet_name("  Max  ").is_ok());
    assert!(validate_pet_name("").is_err());
    assert!(validate_pet_name("   ").is_err());
    assert!(validate_pet_name(&"A".repeat(101)).is_err());
}

#[test]
fn test_validate_species() {
    assert!(validate_species("Dog").is_ok());
    assert!(validate_species("Cat").is_ok());
    assert!(validate_species("").is_err());
    assert!(validate_species(&"A".repeat(51)).is_err());
}

#[test]
fn test_validate_age() {
    assert!(validate_age(0).is_ok());
    assert!(validate_age(50).is_ok());
    assert!(validate_age(100).is_ok());
    assert!(validate_age(101).is_err());
}

#[test]
fn test_validate_owner_name() {
    assert!(validate_owner_name("John Doe").is_ok());
    assert!(validate_owner_name("").is_err());
    assert!(validate_owner_name(&"A".repeat(101)).is_err());
}

#[test]
fn validator_boundary_lengths_accepted() {
    assert!(validate_pet_name(&"A".repeat(100)).is_ok());
    assert!(validate_species(&"A".repeat(50)).is_ok());
    assert!(validate_owner_name(&"A".repeat(100)).is_ok());
}

#[test]
fn validator_messages() {
    assert_eq!(validate_pet_name("   ").unwrap_err(), "Pet name cannot be empty");
    assert_eq!(
        validate_pet_name(&"A".repeat(101)).unwrap_err(),
        "Pet name must be 100 characters or less"
    );
    assert_eq!(validate_species(" ").unwrap_err(), "Species cannot be empty");
    assert_eq!(
        validate_species(&"A".repeat(51)).unwrap_err(),
        "Species must be 50 characters or less"
    );
    assert_eq!(validate_owner_name("").unwrap_err(), "Owner name cannot be empty");
    assert_eq!(
        validate_owner_name(&"A".repeat(101)).unwrap_err(),
        "Owner name must be 100 characters or less"
    );
    assert_eq!(validate_age(101).unwrap_err(), "Age must be 100 or less");
}

#[test]
fn trimmed_length_is_counted_in_characters() {
    // 101 non-ASCII characters: over the bound even though each takes
    // several bytes; 100 are accepted.
    assert!(validate_pet_name(&"é".repeat(101)).is_err());
    assert!(validate_pet_name(&"é".repeat(100)).is_ok());
}

#[test]
fn format_display_name_trims_all_sides_only() {
    assert_eq!(format_display_name("\t  a  b \n"), "a  b");
    assert_eq!(format_display_name("   "), "");
}
