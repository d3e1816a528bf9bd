//! The encoder derived for a unit struct.

use vstd::prelude::*;
use crate::identity::{TypeIdentity, UnitValue};

verus! {

/// What the type named `name` is written as: its name, with nothing before
/// it, nothing after it and no letter changed.
pub open spec fn encoded(name: Seq<char>) -> Seq<char> {
    name
}

/// The encoder of one unit struct: the string that it hands to a sink, fixed
/// when it is derived.
#[derive(Debug)]
pub struct GeneratedEncoder {
    name_str: String,
}

impl View for GeneratedEncoder {
    type V = Seq<char>;

    closed spec fn view(&self) -> Seq<char> {
        self.name_str@
    }
}

impl GeneratedEncoder {
    /// The encoder of the type with this identity.
    pub fn new(identity: &TypeIdentity) -> (encoder: GeneratedEncoder)
        ensures
            encoder@ == identity@,
    {
        GeneratedEncoder { name_str: String::from_str(identity.name()) }
    }

    /// The string that this encoder writes.
    pub fn name_str(&self) -> (name: &str)
        ensures
            name@ == self@,
    {
        self.name_str.as_str()
    }

    /// The string to hand to the sink for `instance`. The value has nothing
    /// in it to consult, so this is the type's name whatever is passed, and
    /// no input makes it fail.
    pub fn encode(&self, instance: &UnitValue) -> (written: String)
        ensures
            written@ == encoded(self@),
    {
        self.name_str.clone()
    }
}

/// Derives the encoder of the type declared under the identifier `name`: the
/// one that writes that identifier, letter for letter.
pub fn serialize_derive(name: &str) -> (encoder: GeneratedEncoder)
    ensures
        encoder@ == name@,
{
    GeneratedEncoder::new(&TypeIdentity::new(name))
}

} // verus!
