//! Flags and the validation of the two identifiers that name one.

use crate::numeral::{decimal, decimal_text};
use crate::unstr::{all_unreserved, first_reserved, text_bytes, UnreservedString};
use vstd::prelude::*;
use vstd::string::*;

verus! {

/// The shortest identifier, in bytes.
pub const MIN_LEN: usize = 1;

/// The longest identifier, in bytes.
pub const MAX_LEN: usize = 128;

/// Which of the two identifiers of a flag a value or an error belongs to.
#[derive(Clone, Copy, Debug, PartialEq, Eq, Structural)]
pub enum FlagField {
    Namespace,
    Key,
}

/// Why a text was not accepted as an identifier.
#[derive(Debug, Clone, Copy, PartialEq, Eq, Structural)]
pub enum FlagError {
    /// The text has this many bytes, which is none or too many.
    Length(FlagField, usize),
    /// The text holds this byte, which is not unreserved.
    InvalidByte(FlagField, u8),
}

/// Whether `text` may name a namespace or a flag: between `MIN_LEN` and
/// `MAX_LEN` bytes, all of them unreserved.
pub open spec fn is_identifier(text: Seq<char>) -> bool {
    &&& all_unreserved(text_bytes(text))
    &&& MIN_LEN <= text_bytes(text).len() <= MAX_LEN
}

/// What is wrong with `text` as the identifier `field`, if anything is. A
/// byte that is not unreserved is reported before a wrong length.
pub open spec fn validation_error(text: Seq<char>, field: FlagField) -> Option<FlagError> {
    let bytes = text_bytes(text);
    match first_reserved(bytes) {
        Some(byte) => Some(FlagError::InvalidByte(field, byte)),
        None => if MIN_LEN <= bytes.len() <= MAX_LEN {
            None
        } else {
            Some(FlagError::Length(field, bytes.len() as usize))
        },
    }
}

/// What is wrong with a namespace and a key taken together: the namespace is
/// judged first.
pub open spec fn flag_error(namespace: Seq<char>, key: Seq<char>) -> Option<FlagError> {
    match validation_error(namespace, FlagField::Namespace) {
        Some(e) => Some(e),
        None => validation_error(key, FlagField::Key),
    }
}

/// The name of a field as messages show it.
pub open spec fn field_name(field: FlagField) -> Seq<char> {
    match field {
        FlagField::Namespace => "Namespace"@,
        FlagField::Key => "Key"@,
    }
}

/// The message that goes with an error.
pub open spec fn message_text(error: FlagError) -> Seq<char> {
    match error {
        FlagError::Length(field, len) => field_name(field) + " had an invalid length: "@
            + decimal_text(len as nat) + ". Expected length "@ + decimal_text(MIN_LEN as nat)
            + " <= "@ + decimal_text(MAX_LEN as nat),
        FlagError::InvalidByte(field, byte) => field_name(field)
            + " contained an invalid byte: "@ + decimal_text(byte as nat),
    }
}

/// Validation accepts exactly the identifiers, and names the right fault of
/// every other text.
pub proof fn lemma_validation_error(text: Seq<char>, field: FlagField)
    ensures
        is_identifier(text) <==> validation_error(text, field) is None,
        !all_unreserved(text_bytes(text)) ==> (validation_error(text, field) matches Some(
            FlagError::InvalidByte(f, byte),
        ) && f == field && !crate::unstr::is_unreserved(byte) && text_bytes(text).contains(byte)),
        all_unreserved(text_bytes(text)) && !(MIN_LEN <= text_bytes(text).len() <= MAX_LEN)
            ==> validation_error(text, field) == Some(
            FlagError::Length(field, text_bytes(text).len() as usize),
        ),
{
    crate::unstr::lemma_first_reserved(text_bytes(text));
}

/// The identifiers are the texts of `MIN_LEN` to `MAX_LEN` characters, all
/// of them unreserved.
pub proof fn lemma_identifier_chars(text: Seq<char>)
    ensures
        is_identifier(text) <==> (crate::unstr::all_unreserved_chars(text) && MIN_LEN
            <= text.len() <= MAX_LEN),
{
    crate::unstr::lemma_unreserved_chars(text);
}

impl FlagField {
    /// The name of the field as messages show it.
    pub fn name(&self) -> (text: &'static str)
        ensures
            text@ == field_name(*self),
    {
        match self {
            FlagField::Namespace => "Namespace",
            FlagField::Key => "Key",
        }
    }
}

impl FlagError {
    /// The message that goes with this error.
    pub fn message(&self) -> (text: String)
        ensures
            text@ == message_text(*self),
    {
        match self {
            FlagError::Length(field, len) => {
                let mut text = String::from_str(field.name());
                text.append(" had an invalid length: ");
                text.append(decimal(*len as u128).as_str());
                text.append(". Expected length ");
                text.append(decimal(MIN_LEN as u128).as_str());
                text.append(" <= ");
                text.append(decimal(MAX_LEN as u128).as_str());
                text
            },
            FlagError::InvalidByte(field, byte) => {
                let mut text = String::from_str(field.name());
                text.append(" contained an invalid byte: ");
                text.append(decimal(*byte as u128).as_str());
                text
            },
        }
    }
}

/// One flag: a key within a namespace. Both are identifiers.
pub struct Flag {
    namespace: UnreservedString,
    key: UnreservedString,
}

impl Flag {
    #[verifier::type_invariant]
    closed spec fn identifiers(&self) -> bool {
        is_identifier(self.namespace@) && is_identifier(self.key@)
    }

    /// The namespace of the flag, as text.
    pub closed spec fn namespace_text(&self) -> Seq<char> {
        self.namespace@
    }

    /// The key of the flag, as text.
    pub closed spec fn key_text(&self) -> Seq<char> {
        self.key@
    }

    /// The flag `key` of `namespace`, if both are identifiers; otherwise the
    /// fault of the namespace or, if that one is sound, of the key.
    pub fn new(namespace: &str, key: &str) -> (r: Result<Flag, FlagError>)
        ensures
            match flag_error(namespace@, key@) {
                Some(e) => r == Err::<Flag, FlagError>(e),
                None => r is Ok && r->Ok_0.namespace_text() == namespace@ && r->Ok_0.key_text()
                    == key@,
            },
    {
        let namespace = match Self::parse(namespace, FlagField::Namespace) {
            Ok(text) => text,
            Err(e) => { return Err(e); },
        };
        let key = match Self::parse(key, FlagField::Key) {
            Ok(text) => text,
            Err(e) => { return Err(e); },
        };
        Ok(Flag { namespace, key })
    }

    /// Validates `input` as the identifier `field`. It is accepted whole or
    /// rejected with one error: the first byte that is not unreserved, or
    /// else a length that is not between `MIN_LEN` and `MAX_LEN`.
    pub fn parse(input: &str, field: FlagField) -> (r: Result<UnreservedString, FlagError>)
        ensures
            match validation_error(input@, field) {
                Some(e) => r == Err::<UnreservedString, FlagError>(e),
                None => r is Ok && r->Ok_0@ == input@,
            },
            is_identifier(input@) <==> r is Ok,
            !all_unreserved(text_bytes(input@)) ==> r is Err && r->Err_0 is InvalidByte,
            all_unreserved(text_bytes(input@)) && !(MIN_LEN <= text_bytes(input@).len() <= MAX_LEN)
                ==> r == Err::<UnreservedString, FlagError>(
                FlagError::Length(field, text_bytes(input@).len() as usize),
            ),
    {
        proof {
            lemma_validation_error(input@, field);
        }
        match UnreservedString::new(input) {
            Err(byte) => Err(FlagError::InvalidByte(field, byte)),
            Ok(text) => {
                let len = text.len();
                if MIN_LEN <= len && len <= MAX_LEN {
                    Ok(text)
                } else {
                    Err(FlagError::Length(field, len))
                }
            },
        }
    }

    /// The namespace of the flag.
    pub fn namespace(&self) -> (text: &str)
        ensures
            text@ == self.namespace_text(),
            is_identifier(text@),
    {
        proof {
            use_type_invariant(self);
        }
        self.namespace.as_str()
    }

    /// The key of the flag.
    pub fn key(&self) -> (text: &str)
        ensures
            text@ == self.key_text(),
            is_identifier(text@),
    {
        proof {
            use_type_invariant(self);
        }
        self.key.as_str()
    }

    /// The flag as `key@namespace`.
    pub fn to_text(&self) -> (text: String)
        ensures
            text@ == self.key_text() + "@"@ + self.namespace_text(),
    {
        let mut text = String::from_str(self.key.as_str());
        text.append("@");
        text.append(self.namespace.as_str());
        text
    }
}

} // verus!
