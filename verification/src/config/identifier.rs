//! Package identifiers: non-empty strings of ASCII letters, digits, `-` and `_`.

use crate::text::push_char;
use vstd::prelude::*;
use vstd::string::*;

verus! {

/// Whether `c` may occur in an identifier.
pub open spec fn is_identifier_char(c: char) -> bool {
    ||| 'a' <= c <= 'z'
    ||| 'A' <= c <= 'Z'
    ||| '0' <= c <= '9'
    ||| c == '-'
    ||| c == '_'
}

/// Whether `s` is a valid identifier: not empty, and made of identifier characters only.
pub open spec fn is_identifier(s: Seq<char>) -> bool {
    &&& s.len() > 0
    &&& forall|i: int| 0 <= i < s.len() ==> is_identifier_char(#[trigger] s[i])
}

/// Whether `i` is the position of the first character of `s` that no identifier may hold.
pub open spec fn is_first_invalid(s: Seq<char>, i: int) -> bool {
    &&& 0 <= i < s.len()
    &&& !is_identifier_char(s[i])
    &&& forall|j: int| 0 <= j < i ==> is_identifier_char(#[trigger] s[j])
}

/// Why a string is no identifier.
#[derive(Debug, Clone, Copy, PartialEq, Eq)]
pub enum IdentifierError {
    /// The string is empty.
    Empty,
    /// The string holds this character, the first one that is not allowed.
    InvalidCharacter(char),
}

/// The text that says why a string is no identifier.
pub open spec fn identifier_error_text(error: IdentifierError) -> Seq<char> {
    match error {
        IdentifierError::Empty => "cannot create Identifier: source string is empty"@,
        IdentifierError::InvalidCharacter(c) => (
        "cannot create Identifier: source string contains invalid character `"@.push(c)) + "`"@,
    }
}

impl IdentifierError {
    /// Says why the string was refused.
    pub fn message(&self) -> (text: String)
        ensures
            text@ == identifier_error_text(*self),
    {
        match self {
            IdentifierError::Empty => String::from_str(
                "cannot create Identifier: source string is empty",
            ),
            IdentifierError::InvalidCharacter(c) => {
                let mut text = String::from_str(
                    "cannot create Identifier: source string contains invalid character `",
                );
                push_char(&mut text, *c);
                text.append("`");
                text
            },
        }
    }
}

/// A validated package identifier.
#[derive(Debug)]
pub struct Identifier(String);

impl Clone for Identifier {
    fn clone(&self) -> (copy: Self)
        ensures
            copy@ == self@,
    {
        proof {
            use_type_invariant(self);
        }
        Identifier(self.0.clone())
    }
}

impl View for Identifier {
    type V = Seq<char>;

    closed spec fn view(&self) -> Seq<char> {
        self.0@
    }
}

/// Executable form of [`is_identifier_char`].
pub fn check_identifier_char(c: char) -> (ok: bool)
    ensures
        ok == is_identifier_char(c),
{
    ('a' <= c && c <= 'z') || ('A' <= c && c <= 'Z') || ('0' <= c && c <= '9') || c == '-' || c
        == '_'
}

impl Identifier {
    #[verifier::type_invariant]
    spec fn well_formed(self) -> bool {
        is_identifier(self.0@)
    }

    /// Validates `value`. An empty string is refused as such; otherwise the
    /// first character that is not allowed is reported.
    pub fn try_from(value: String) -> (res: Result<Identifier, IdentifierError>)
        ensures
            match res {
                Ok(id) => is_identifier(value@) && id@ == value@,
                Err(IdentifierError::Empty) => value@.len() == 0,
                Err(IdentifierError::InvalidCharacter(c)) => exists|i: int|
                    is_first_invalid(value@, i) && value@[i] == c,
            },
    {
        let text = value.as_str();
        let n = text.unicode_len();
        if n == 0 {
            return Err(IdentifierError::Empty);
        }
        let mut i: usize = 0;
        while i < n
            invariant
                i <= n,
                n == text@.len(),
                text@ == value@,
                forall|j: int| 0 <= j < i ==> is_identifier_char(#[trigger] text@[j]),
            decreases n - i,
        {
            let c = text.get_char(i);
            if !check_identifier_char(c) {
                assert(is_first_invalid(value@, i as int));
                return Err(IdentifierError::InvalidCharacter(c));
            }
            i += 1;
        }
        Ok(Identifier(value))
    }

    /// The identifier's text.
    pub fn as_str(&self) -> (text: &str)
        ensures
            text@ == self@,
            is_identifier(text@),
    {
        proof {
            use_type_invariant(self);
        }
        self.0.as_str()
    }

    /// Gives up the identifier for its text.
    pub fn into_string(self) -> (text: String)
        ensures
            text@ == self@,
            is_identifier(text@),
    {
        proof {
            use_type_invariant(&self);
        }
        self.0
    }
}

/// Validates `value` as an identifier, as [`Identifier::try_from`] does for an owned string.
pub fn validate_identifier(value: &str) -> (res: Result<Identifier, IdentifierError>)
    ensures
        match res {
            Ok(id) => is_identifier(value@) && id@ == value@,
            Err(IdentifierError::Empty) => value@.len() == 0,
            Err(IdentifierError::InvalidCharacter(c)) => exists|i: int|
                is_first_invalid(value@, i) && value@[i] == c,
        },
{
    Identifier::try_from(value.to_owned())
}

} // verus!
