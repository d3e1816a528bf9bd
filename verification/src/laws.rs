//! What holds of every derived encoder and decoder.

use vstd::prelude::*;
use crate::decoder::decode_outcome;
use crate::encoder::encoded;
use crate::identity::expected_message;

verus! {

/// Round trip: what a type is written as is read back as that type's value.
pub proof fn round_trip(name: Seq<char>)
    ensures
        decode_outcome(name, encoded(name)) == Ok::<Seq<char>, Seq<char>>(name),
{
}

/// A decoder accepts one string, the name of its type, and no other.
pub proof fn accepts_the_name_alone(name: Seq<char>, value: Seq<char>)
    ensures
        decode_outcome(name, value) is Ok <==> value == name,
{
}

/// Exact rejection: every string but the name fails, with the message that
/// names the type.
pub proof fn exact_rejection(name: Seq<char>, value: Seq<char>)
    requires
        value != name,
    ensures
        decode_outcome(name, value) == Err::<Seq<char>, Seq<char>>(expected_message(name)),
{
}

/// A string of another length than the name is rejected: so is each proper
/// prefix of the name, each string that goes on after it, and the empty
/// string for every type that has a name at all.
pub proof fn other_length_rejected(name: Seq<char>, value: Seq<char>)
    requires
        value.len() != name.len(),
    ensures
        decode_outcome(name, value) is Err,
{
}

/// A string that differs from the name in one place is rejected, however
/// close the two characters are: a letter in the other case is another
/// letter.
pub proof fn changed_letter_rejected(name: Seq<char>, value: Seq<char>, at: int)
    requires
        0 <= at < name.len(),
        at < value.len(),
        value[at] != name[at],
    ensures
        decode_outcome(name, value) is Err,
{
}

/// No collision: of two types with different names, neither decoder accepts
/// what the other type is written as.
pub proof fn no_cross_type_collision(first: Seq<char>, second: Seq<char>)
    requires
        first != second,
    ensures
        decode_outcome(first, encoded(second)) is Err,
        decode_outcome(second, encoded(first)) is Err,
{
}

/// Determinism: the name settles what is written, and the name and the
/// string settle what is read. Two types of one name are written alike, and
/// read every string alike.
pub proof fn same_name_same_outcome(first: Seq<char>, second: Seq<char>, value: Seq<char>)
    requires
        first == second,
    ensures
        encoded(first) == encoded(second),
        decode_outcome(first, value) == decode_outcome(second, value),
{
}

/// Failures agree: whatever string a decoder turned down, the failure is the
/// same one. The message is settled by the type, not by the input.
pub proof fn failures_agree(name: Seq<char>, one: Seq<char>, other: Seq<char>)
    requires
        one != name,
        other != name,
    ensures
        decode_outcome(name, one) == decode_outcome(name, other),
{
}

/// The message names its type: two types that fail with the same message
/// have the same name.
pub proof fn message_names_the_type(first: Seq<char>, second: Seq<char>)
    requires
        expected_message(first) == expected_message(second),
    ensures
        first == second,
{
    let lead = "expected unit struct "@;
    assert(first == (lead + first).subrange(lead.len() as int, (lead + first).len() as int));
    assert(second == (lead + second).subrange(lead.len() as int, (lead + second).len() as int));
}

} // verus!
