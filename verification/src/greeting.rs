//! Validated names and the greetings built from them.

use vstd::prelude::*;
use vstd::string::*;
use crate::error::AppError;
use crate::text::{decimal, push_decimal, trim, trimmed};

verus! {

/// The largest number of characters that a name may have once trimmed.
pub const MAX_NAME_LENGTH: usize = 100;

/// Message of the error for a name that holds nothing but whitespace.
pub open spec fn empty_name_message() -> Seq<char> {
    "Person name cannot be empty"@
}

/// Message of the error for a trimmed name of `length` characters, where
/// that is over the limit.
pub open spec fn long_name_message(length: nat) -> Seq<char> {
    "Person name cannot exceed "@ + decimal(MAX_NAME_LENGTH as nat) + " characters, got "@
        + decimal(length)
}

/// Whether `raw` is accepted as a name: trimmed, it has at least one
/// character and at most `MAX_NAME_LENGTH`.
pub open spec fn name_is_valid(raw: Seq<char>) -> bool {
    0 < trimmed(raw).len() <= MAX_NAME_LENGTH
}

/// The text of the greeting for `name`.
pub open spec fn greeting_text(name: Seq<char>) -> Seq<char> {
    "Hello, "@ + name + "!"@
}

/// A person's name that has passed validation.
#[derive(Debug, PartialEq, Eq)]
pub struct PersonName(String);

/// The greeting addressed to one person.
#[derive(Debug, Clone, PartialEq, Eq)]
pub struct GreetingMessage(String);

impl View for PersonName {
    type V = Seq<char>;

    closed spec fn view(&self) -> Seq<char> {
        self.0@
    }
}

impl View for GreetingMessage {
    type V = Seq<char>;

    closed spec fn view(&self) -> Seq<char> {
        self.0@
    }
}

impl PersonName {
    /// Every name is trimmed, not empty and within the limit.
    #[verifier::type_invariant]
    closed spec fn well_formed(self) -> bool {
        &&& 0 < self.0@.len() <= MAX_NAME_LENGTH
        &&& trimmed(self.0@) == self.0@
    }

    /// Validates `name`. It is accepted if and only if, once leading and
    /// trailing whitespace is removed, it has between one and
    /// `MAX_NAME_LENGTH` characters; the name kept is the trimmed text.
    /// Otherwise the result is a validation error that says which of the
    /// two bounds was broken.
    pub fn new(name: &str) -> (r: Result<PersonName, AppError>)
        ensures
            r is Ok <==> name_is_valid(name@),
            r is Ok ==> r->Ok_0@ == trimmed(name@),
            r is Err ==> r->Err_0 is ValidationError,
            trimmed(name@).len() == 0 ==> r is Err && r->Err_0.message_text()
                == empty_name_message(),
            trimmed(name@).len() > MAX_NAME_LENGTH ==> r is Err && r->Err_0.message_text()
                == long_name_message(trimmed(name@).len()),
    {
        let kept = trim(name);
        let length = kept.unicode_len();
        if length == 0 {
            return Err(AppError::validation("Person name cannot be empty"));
        }
        if length > MAX_NAME_LENGTH {
            let mut message = String::from_str("Person name cannot exceed ");
            push_decimal(&mut message, MAX_NAME_LENGTH as u128);
            message.append(" characters, got ");
            push_decimal(&mut message, length as u128);
            return Err(AppError::validation(message.as_str()));
        }
        proof {
            crate::text::lemma_trimmed_is_fixed(name@);
        }
        Ok(PersonName(String::from_str(kept)))
    }

    /// The validated name: what trimming leaves of itself, with between one
    /// and `MAX_NAME_LENGTH` characters.
    pub fn as_str(&self) -> (s: &str)
        ensures
            s@ == self@,
            0 < self@.len() <= MAX_NAME_LENGTH,
            trimmed(self@) == self@,
    {
        proof {
            use_type_invariant(self);
        }
        self.0.as_str()
    }
}

impl Clone for PersonName {
    fn clone(&self) -> (r: PersonName)
        ensures
            r@ == self@,
    {
        proof {
            use_type_invariant(self);
        }
        PersonName(self.0.clone())
    }
}

impl GreetingMessage {
    /// The greeting for `person`: "Hello, ", the name, and "!".
    pub fn for_person(person: &PersonName) -> (g: GreetingMessage)
        ensures
            g@ == greeting_text(person@),
    {
        let text = String::from_str("Hello, ").concat(person.as_str()).concat("!");
        assert(text@ =~= greeting_text(person@));
        GreetingMessage(text)
    }

    /// The text of the greeting.
    pub fn as_str(&self) -> (s: &str)
        ensures
            s@ == self@,
    {
        self.0.as_str()
    }
}

} // verus!
