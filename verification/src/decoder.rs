//! The decoder derived for a unit struct.

use vstd::prelude::*;
use crate::identity::{expected_message, visitor_ident, TypeIdentity, UnitValue};
use crate::text::same_text;

verus! {

/// What decoding `value` as the type named `expected` comes to: the type's
/// one value where the two are the same string, and otherwise the message
/// that names the type. The message never holds the string that was turned
/// down.
pub open spec fn decode_outcome(expected: Seq<char>, value: Seq<char>) -> Result<
    Seq<char>,
    Seq<char>,
> {
    if value == expected {
        Ok(expected)
    } else {
        Err(expected_message(expected))
    }
}

/// A string was read, and it is not the name of the type: the one way in
/// which decoding fails by its own judgement.
#[derive(Debug, PartialEq, Eq)]
pub struct DecodeError {
    message: String,
}

impl View for DecodeError {
    type V = Seq<char>;

    closed spec fn view(&self) -> Seq<char> {
        self.message@
    }
}

impl DecodeError {
    /// The message: `expected unit struct`, a space and the type's name.
    pub fn message(&self) -> (message: &str)
        ensures
            message@ == self@,
    {
        self.message.as_str()
    }
}

/// How reading a unit struct from a source of strings fails.
#[derive(Debug)]
pub enum DecodeFailure<E> {
    /// The source had no string to give. Its own error, as it gave it.
    Source(E),
    /// The source gave a string, and it is not the name of the type.
    NameMismatch(DecodeError),
}

/// The decoder of one unit struct: the name it accepts, the message it fails
/// with and the identifier of its visitor, all fixed when it is derived.
#[derive(Debug)]
pub struct GeneratedDecoder {
    name_str: String,
    error_msg: String,
    visitor: String,
}

impl View for GeneratedDecoder {
    type V = Seq<char>;

    closed spec fn view(&self) -> Seq<char> {
        self.name_str@
    }
}

impl GeneratedDecoder {
    #[verifier::type_invariant]
    closed spec fn consistent(&self) -> bool {
        &&& self.error_msg@ == expected_message(self.name_str@)
        &&& self.visitor@ == visitor_ident(self.name_str@)
    }

    /// The decoder of the type with this identity.
    pub fn new(identity: &TypeIdentity) -> (decoder: GeneratedDecoder)
        ensures
            decoder@ == identity@,
    {
        GeneratedDecoder {
            name_str: String::from_str(identity.name()),
            error_msg: identity.error_message(),
            visitor: identity.visitor_name(),
        }
    }

    /// The one string that this decoder accepts.
    pub fn name_str(&self) -> (name: &str)
        ensures
            name@ == self@,
    {
        self.name_str.as_str()
    }

    /// What this decoder says it expects, which is also the message of each
    /// of its failures.
    pub fn expecting(&self) -> (message: &str)
        ensures
            message@ == expected_message(self@),
    {
        proof {
            use_type_invariant(self);
        }
        self.error_msg.as_str()
    }

    /// The identifier under which the visitor of this type is declared.
    pub fn visitor(&self) -> (ident: &str)
        ensures
            ident@ == visitor_ident(self@),
    {
        proof {
            use_type_invariant(self);
        }
        self.visitor.as_str()
    }

    /// Decodes a string that a source has read: the type's value where the
    /// string is the type's name, the name mismatch in every other case.
    pub fn decode(&self, value: &str) -> (outcome: Result<UnitValue, DecodeError>)
        ensures
            match decode_outcome(self@, value@) {
                Ok(name) => outcome matches Ok(instance) && instance@ == name,
                Err(message) => outcome matches Err(error) && error@ == message,
            },
    {
        proof {
            use_type_invariant(self);
        }
        if same_text(value, self.name_str.as_str()) {
            Ok(TypeIdentity::new(self.name_str.as_str()).instance())
        } else {
            Err(DecodeError { message: self.error_msg.clone() })
        }
    }

    /// Decodes what a source answered when asked for a string. A source that
    /// had none has its error handed on as it is; a string is judged as
    /// `decode` judges it, whichever source it came from.
    pub fn decode_token<E>(&self, token: Result<String, E>) -> (outcome: Result<
        UnitValue,
        DecodeFailure<E>,
    >)
        ensures
            match token {
                Ok(value) => match decode_outcome(self@, value@) {
                    Ok(name) => outcome matches Ok(instance) && instance@ == name,
                    Err(message) => outcome matches Err(DecodeFailure::NameMismatch(error))
                        && error@ == message,
                },
                Err(cause) => outcome matches Err(DecodeFailure::Source(passed)) && passed
                    == cause,
            },
    {
        match token {
            Ok(value) => match self.decode(value.as_str()) {
                Ok(instance) => Ok(instance),
                Err(error) => Err(DecodeFailure::NameMismatch(error)),
            },
            Err(cause) => Err(DecodeFailure::Source(cause)),
        }
    }
}

/// Derives the decoder of the type declared under the identifier `name`: the
/// one that accepts that identifier and no other string, says that it expects
/// `expected unit struct` and the identifier, and names its visitor after it.
pub fn deserialize_derive(name: &str) -> (decoder: GeneratedDecoder)
    ensures
        decoder@ == name@,
{
    GeneratedDecoder::new(&TypeIdentity::new(name))
}

} // verus!
