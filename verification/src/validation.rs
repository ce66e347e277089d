//! Field validators and text normalization for pet records.
//!
//! Every length and emptiness check operates on the trimmed form of its
//! input, and the store also keeps the trimmed form, never the raw input.
//! Lengths are counted in characters.

use vstd::prelude::*;
use vstd::string::StrSliceExecFns;

verus! {

/// Largest accepted age for a pet, inclusive.
pub const MAX_AGE: u8 = 100;

/// Largest accepted character count for a pet name, after trimming.
pub const MAX_NAME_LEN: usize = 100;

/// Largest accepted character count for a species, after trimming.
pub const MAX_SPECIES_LEN: usize = 50;

/// Largest accepted character count for an owner name, after trimming.
pub const MAX_OWNER_NAME_LEN: usize = 100;

/// The characters of `s` with leading and trailing whitespace removed, as
/// `str::trim` computes them. Which characters count as whitespace is
/// Unicode's `White_Space` property, which this crate does not restate; the
/// facts the contracts rely on are stated on [`format_display_name`].
pub uninterp spec fn trim_of(s: Seq<char>) -> Seq<char>;

/// Trims leading and trailing whitespace from a display name.
///
/// Relies on `str::trim`: the result is a function of the characters alone,
/// and it carries no leading or trailing whitespace of its own, so trimming
/// it again changes nothing.
#[verifier::external_body]
pub fn format_display_name(name: &str) -> (r: String)
    ensures
        r@ == trim_of(name@),
        trim_of(r@) == r@,
{
    name.trim().to_owned()
}

/// True iff `c` occurs among the characters of `s`.
pub fn str_contains_char(s: &str, c: char) -> (r: bool)
    ensures
        r == s@.contains(c),
{
    let n: usize = s.unicode_len();
    let mut i: usize = 0;
    while i < n
        invariant
            n == s@.len(),
            i <= n,
            forall|j: int| 0 <= j < i ==> s@[j] != c,
        decreases n - i,
    {
        if s.get_char(i) == c {
            return true;
        }
        i += 1;
    }
    false
}

/// A name is accepted iff it is non-empty and at most 100 characters once
/// trimmed.
pub open spec fn valid_name(s: Seq<char>) -> bool {
    0 < trim_of(s).len() <= MAX_NAME_LEN
}

/// A species is accepted iff it is non-empty and at most 50 characters once
/// trimmed.
pub open spec fn valid_species(s: Seq<char>) -> bool {
    0 < trim_of(s).len() <= MAX_SPECIES_LEN
}

/// An owner name is accepted iff it is non-empty and at most 100 characters
/// once trimmed.
pub open spec fn valid_owner_name(s: Seq<char>) -> bool {
    0 < trim_of(s).len() <= MAX_OWNER_NAME_LEN
}

/// An email is accepted iff it contains both `@` and `.`. This permissive
/// check is deliberate and must not be tightened.
pub open spec fn valid_email(s: Seq<char>) -> bool {
    s.contains('@') && s.contains('.')
}

/// An age is accepted iff it is at most [`MAX_AGE`].
pub open spec fn valid_age(age: u8) -> bool {
    age <= MAX_AGE
}

/// Accepts iff the email contains both `@` and `.` as substrings.
pub fn validate_email(email: &str) -> (r: bool)
    ensures
        r == valid_email(email@),
{
    str_contains_char(email, '@') && str_contains_char(email, '.')
}

/// Accepts a pet name that is non-empty and at most 100 characters after
/// trimming; reports which bound failed.
pub fn validate_pet_name(name: &str) -> (r: Result<(), String>)
    ensures
        r is Ok <==> valid_name(name@),
        trim_of(name@).len() == 0 ==> (r matches Err(m) && m@ == "Pet name cannot be empty"@),
        trim_of(name@).len() > MAX_NAME_LEN ==> (r matches Err(m) && m@
            == "Pet name must be 100 characters or less"@),
{
    let trimmed = format_display_name(name);
    if trimmed.as_str().unicode_len() == 0 {
        return Err("Pet name cannot be empty".to_owned());
    }
    if trimmed.as_str().unicode_len() > MAX_NAME_LEN {
        return Err("Pet name must be 100 characters or less".to_owned());
    }
    Ok(())
}

/// Accepts a species that is non-empty and at most 50 characters after
/// trimming; reports which bound failed.
pub fn validate_species(species: &str) -> (r: Result<(), String>)
    ensures
        r is Ok <==> valid_species(species@),
        trim_of(species@).len() == 0 ==> (r matches Err(m) && m@ == "Species cannot be empty"@),
        trim_of(species@).len() > MAX_SPECIES_LEN ==> (r matches Err(m) && m@
            == "Species must be 50 characters or less"@),
{
    let trimmed = format_display_name(species);
    if trimmed.as_str().unicode_len() == 0 {
        return Err("Species cannot be empty".to_owned());
    }
    if trimmed.as_str().unicode_len() > MAX_SPECIES_LEN {
        return Err("Species must be 50 characters or less".to_owned());
    }
    Ok(())
}

/// Accepts an age of at most [`MAX_AGE`]; anything larger is rejected. The
/// age is unsigned, so no lower bound is checked.
pub fn validate_age(age: u8) -> (r: Result<(), String>)
    ensures
        r is Ok <==> valid_age(age),
        r matches Err(m) ==> m@ == "Age must be 100 or less"@,
{
    if age > MAX_AGE {
        return Err("Age must be 100 or less".to_owned());
    }
    Ok(())
}

/// Accepts an owner name that is non-empty and at most 100 characters after
/// trimming; reports which bound failed.
pub fn validate_owner_name(name: &str) -> (r: Result<(), String>)
    ensures
        r is Ok <==> valid_owner_name(name@),
        trim_of(name@).len() == 0 ==> (r matches Err(m) && m@ == "Owner name cannot be empty"@),
        trim_of(name@).len() > MAX_OWNER_NAME_LEN ==> (r matches Err(m) && m@
            == "Owner name must be 100 characters or less"@),
{
    let trimmed = format_display_name(name);
    if trimmed.as_str().unicode_len() == 0 {
        return Err("Owner name cannot be empty".to_owned());
    }
    if trimmed.as_str().unicode_len() > MAX_OWNER_NAME_LEN {
        return Err("Owner name must be 100 characters or less".to_owned());
    }
    Ok(())
}

} // verus!
