//! Unit structs that serialize as their own name.
//!
//! A unit struct has one value and no fields, so all that can be written for
//! it is which type it is. This crate derives, from the identifier that a
//! type is declared under, an encoder that emits the identifier as a string
//! and a decoder that accepts that exact string and nothing else.

pub mod decoder;
pub mod encoder;
pub mod identity;
pub mod laws;
pub mod text;

pub use crate::decoder::{deserialize_derive, DecodeError, DecodeFailure, GeneratedDecoder};
pub use crate::encoder::{serialize_derive, GeneratedEncoder};
pub use crate::identity::{TypeIdentity, UnitValue};
