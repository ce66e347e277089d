//! In-memory pet record store with validated create/read/update/delete
//! operations.
//!
//! The store keeps a flat collection of pet records, each identified by a
//! unique token. Every mutation passes a validation gate first; the
//! contracts in this crate state exactly which inputs are accepted, what is
//! stored, and which error is reported for each rejected input.

pub mod pet;
pub mod shared;
pub mod store;
mod sys;
pub mod validation;

pub use pet::CreatePetRequest;
pub use pet::FieldPatch;
pub use pet::Pet;
pub use pet::PetError;
pub use pet::UpdatePetRequest;
pub use shared::SharedPetStore;
pub use store::PetStore;
pub use validation::format_display_name;
pub use validation::validate_age;
pub use validation::validate_email;
pub use validation::validate_owner_name;
pub use validation::validate_pet_name;
pub use validation::validate_species;
