//! The constants that a chunk's pool can hold.

use vstd::prelude::*;

verus! {

/// A constant of a program.
///
/// The variant says how the constant is read; nothing turns a constant of
/// one variant into one of another.
#[derive(Debug, PartialEq)]
pub enum Value {
    /// A double-precision number, held by its IEEE 754 bit pattern and by
    /// the decimal text under which it is shown.
    Float { bits: u64, text: String },
}

/// What a [`Value`] is, with its text as a sequence of characters.
pub enum ValueView {
    Float { bits: u64, text: Seq<char> },
}

impl View for Value {
    type V = ValueView;

    open spec fn view(&self) -> ValueView {
        match self {
            Value::Float { bits, text } => ValueView::Float { bits: *bits, text: text@ },
        }
    }
}

impl ValueView {
    /// The text under which the constant is shown.
    pub open spec fn shown(self) -> Seq<char> {
        match self {
            ValueView::Float { bits, text } => text,
        }
    }
}

impl Value {
    /// The number with the bit pattern `bits`, shown as `text`.
    pub fn float(bits: u64, text: String) -> (value: Value)
        ensures
            value@ == (ValueView::Float { bits, text: text@ }),
    {
        Value::Float { bits, text }
    }

    /// The text under which the constant is shown.
    pub fn shown(&self) -> (text: &str)
        ensures
            text@ == self@.shown(),
    {
        match self {
            Value::Float { bits: _, text } => text.as_str(),
        }
    }
}

} // verus!
