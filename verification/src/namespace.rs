//! The name of a bucket of flags.

use crate::flag::{is_identifier, MAX_LEN, MIN_LEN};
use crate::unstr::{first_reserved, text_bytes, UnreservedString};
use vstd::prelude::*;

verus! {

/// A validated namespace. Construction is the only point of validation.
pub struct Namespace(UnreservedString);

/// Why a text is no namespace.
#[derive(Debug, Clone, Copy, PartialEq, Eq, Structural)]
pub enum NamespaceError {
    /// The text is empty or too long.
    Length,
    /// The text holds a byte that is not unreserved.
    Character,
}

/// What is wrong with `text` as a namespace, if anything is. A byte that is
/// not unreserved is reported before a wrong length.
pub open spec fn namespace_error(text: Seq<char>) -> Option<NamespaceError> {
    let bytes = text_bytes(text);
    if first_reserved(bytes) is Some {
        Some(NamespaceError::Character)
    } else if MIN_LEN <= bytes.len() <= MAX_LEN {
        None
    } else {
        Some(NamespaceError::Length)
    }
}

impl View for Namespace {
    type V = Seq<char>;

    closed spec fn view(&self) -> Seq<char> {
        self.0@
    }
}

impl Namespace {
    #[verifier::type_invariant]
    closed spec fn identifier(&self) -> bool {
        is_identifier(self.0@)
    }

    /// Validates `s` as a namespace.
    pub fn parse(s: &str) -> (r: Result<Namespace, NamespaceError>)
        ensures
            match namespace_error(s@) {
                Some(e) => r == Err::<Namespace, NamespaceError>(e),
                None => r is Ok && r->Ok_0@ == s@,
            },
            is_identifier(s@) <==> r is Ok,
    {
        proof {
            crate::unstr::lemma_first_reserved(text_bytes(s@));
        }
        match UnreservedString::new(s) {
            Err(_) => Err(NamespaceError::Character),
            Ok(text) => {
                let len = text.len();
                if MIN_LEN <= len && len <= MAX_LEN {
                    Ok(Namespace(text))
                } else {
                    Err(NamespaceError::Length)
                }
            },
        }
    }

    /// The namespace as text.
    pub fn as_str(&self) -> (text: &str)
        ensures
            text@ == self@,
            is_identifier(text@),
    {
        proof {
            use_type_invariant(self);
        }
        self.0.as_str()
    }
}

impl std::str::FromStr for Namespace {
    type Err = NamespaceError;
    /// Validates `s` as a namespace, as `Namespace::parse` does.
    fn from_str(s: &str) -> (r: Result<Self, Self::Err>)
        ensures
            match namespace_error(s@) {
                Some(e) => r == Err::<Namespace, NamespaceError>(e),
                None => r is Ok && r->Ok_0@ == s@,
            },
            is_identifier(s@) <==> r is Ok,
    {
        Namespace::parse(s)
    }
}

} // verus!
