//! Values of the scripting language and the entries a call register holds.

use vstd::prelude::*;

verus! {

/// A value of the scripting language. Built-in functions receive their
/// arguments as such values; only numbers, text and raw bytes matter to
/// the argument binder.
#[derive(Debug, PartialEq, Eq)]
pub enum NaslValue {
    /// The absent value.
    Null,
    /// A truth value.
    Boolean(bool),
    /// A signed 64-bit integer.
    Number(i64),
    /// A piece of text.
    String(String),
    /// A raw byte sequence.
    Data(Vec<u8>),
    /// An ordered collection of values.
    Array(Vec<NaslValue>),
}

/// An entry of a call register: either a plain value or a reference,
/// by name, to a function defined in the script.
#[derive(Debug, PartialEq, Eq)]
pub enum ContextType {
    /// A plain value.
    Value(NaslValue),
    /// A reference to the function of the given name.
    Function(String),
}

} // verus!
