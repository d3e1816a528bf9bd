//! The name of a unit struct, and the strings derived from it.

use vstd::prelude::*;
use vstd::string::StringExecFns;

verus! {

/// The text that a failed decode reports for the type named `name`.
pub open spec fn expected_message(name: Seq<char>) -> Seq<char> {
    "expected unit struct "@ + name
}

/// The identifier of the helper type that visits strings for the type named
/// `name`.
pub open spec fn visitor_ident(name: Seq<char>) -> Seq<char> {
    "SerdeUnitStructDerive"@ + name + "Visitor"@
}

/// The canonical name of a unit struct: what it is written as, and the only
/// string it is read from.
#[derive(Debug, PartialEq, Eq)]
pub struct TypeIdentity {
    name: String,
}

impl View for TypeIdentity {
    type V = Seq<char>;

    closed spec fn view(&self) -> Seq<char> {
        self.name@
    }
}

impl TypeIdentity {
    /// The identity of the type called `name`.
    pub fn new(name: &str) -> (identity: TypeIdentity)
        ensures
            identity@ == name@,
    {
        TypeIdentity { name: String::from_str(name) }
    }

    /// The type's name.
    pub fn name(&self) -> (name: &str)
        ensures
            name@ == self@,
    {
        self.name.as_str()
    }

    /// The message of a decode that was handed another string than this name.
    pub fn error_message(&self) -> (message: String)
        ensures
            message@ == expected_message(self@),
    {
        String::from_str("expected unit struct ").concat(self.name.as_str())
    }

    /// The identifier of the helper type that visits strings for this type.
    pub fn visitor_name(&self) -> (ident: String)
        ensures
            ident@ == visitor_ident(self@),
    {
        String::from_str("SerdeUnitStructDerive").concat(self.name.as_str()).concat("Visitor")
    }

    /// The one value of this type.
    pub fn instance(&self) -> (value: UnitValue)
        ensures
            value@ == self@,
    {
        UnitValue { struct_name: self.name.clone() }
    }
}

/// The one value of a unit struct. It has no fields: all there is to know of
/// it is which type it belongs to.
#[derive(Debug, PartialEq, Eq)]
pub struct UnitValue {
    struct_name: String,
}

impl View for UnitValue {
    type V = Seq<char>;

    closed spec fn view(&self) -> Seq<char> {
        self.struct_name@
    }
}

impl UnitValue {
    /// The name of the type that this is the value of.
    pub fn struct_name(&self) -> (name: &str)
        ensures
            name@ == self@,
    {
        self.struct_name.as_str()
    }
}

} // verus!
