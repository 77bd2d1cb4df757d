//! The instruction set and its one-byte encoding.

use vstd::prelude::*;
use crate::text::{decimal, push_decimal};

verus! {

/// One instruction of the virtual machine.
///
/// A variant's position in this list is its encoding: new instructions are
/// added at the end, and no variant is ever moved or removed.
#[derive(Clone, Copy, Debug, PartialEq, Eq, Structural)]
pub enum OpCode {
    /// Push a constant of the pool; one operand byte, the constant's index.
    OpConstant,
    /// Return from the current call; no operand.
    OpReturn,
}

/// A byte that is the encoding of no instruction.
#[derive(Clone, Copy, Debug, PartialEq, Eq, Structural)]
pub struct DecodeError {
    /// The byte that was met.
    pub byte: u8,
}

/// The byte that stands for `op`.
pub open spec fn encoding(op: OpCode) -> u8 {
    match op {
        OpCode::OpConstant => 0,
        OpCode::OpReturn => 1,
    }
}

/// The instruction that `byte` stands for, or the byte itself as an error.
pub open spec fn decoding(byte: u8) -> Result<OpCode, DecodeError> {
    if byte == 0 {
        Ok(OpCode::OpConstant)
    } else if byte == 1 {
        Ok(OpCode::OpReturn)
    } else {
        Err(DecodeError { byte })
    }
}

impl OpCode {
    /// The byte that stands for this instruction.
    pub fn encode(self) -> (byte: u8)
        ensures
            byte == encoding(self),
    {
        match self {
            OpCode::OpConstant => 0,
            OpCode::OpReturn => 1,
        }
    }

    /// The instruction that `byte` stands for; a byte that stands for none
    /// comes back in the error.
    pub fn decode(byte: u8) -> (decoded: Result<OpCode, DecodeError>)
        ensures
            decoded == decoding(byte),
    {
        match byte {
            0 => Ok(OpCode::OpConstant),
            1 => Ok(OpCode::OpReturn),
            _ => Err(DecodeError { byte }),
        }
    }
}

impl From<OpCode> for u8 {
    fn from(value: OpCode) -> (byte: u8) {
        value.encode()
    }
}

impl vstd::std_specs::convert::FromSpecImpl<OpCode> for u8 {
    open spec fn obeys_from_spec() -> bool {
        true
    }

    open spec fn from_spec(value: OpCode) -> u8 {
        encoding(value)
    }
}

impl TryFrom<u8> for OpCode {
    type Error = DecodeError;

    fn try_from(value: u8) -> (decoded: Result<OpCode, DecodeError>) {
        OpCode::decode(value)
    }
}

impl vstd::std_specs::convert::TryFromSpecImpl<u8> for OpCode {
    open spec fn obeys_try_from_spec() -> bool {
        true
    }

    open spec fn try_from_spec(value: u8) -> Result<OpCode, DecodeError> {
        decoding(value)
    }
}

impl DecodeError {
    /// The error in words.
    pub open spec fn text(self) -> Seq<char> {
        "Failed to convert u8 to OpCode. No OpCode matches value: "@ + decimal(self.byte as nat)
    }

    /// The error in words, with the byte as a decimal number.
    pub fn message(&self) -> (message: String)
        ensures
            message@ == self.text(),
    {
        let mut message = String::from_str(
            "Failed to convert u8 to OpCode. No OpCode matches value: ",
        );
        push_decimal(&mut message, self.byte as usize);
        message
    }
}

/// Decoding the byte of an instruction gives that instruction back.
pub proof fn lemma_decode_encode(op: OpCode)
    ensures
        decoding(encoding(op)) == Ok::<OpCode, DecodeError>(op),
{
}

/// A byte that decodes to an instruction is the byte of that instruction.
pub proof fn lemma_encode_decode(byte: u8, op: OpCode)
    requires
        decoding(byte) == Ok::<OpCode, DecodeError>(op),
    ensures
        encoding(op) == byte,
{
}

/// No two instructions share a byte.
pub proof fn lemma_encoding_distinct(a: OpCode, b: OpCode)
    requires
        encoding(a) == encoding(b),
    ensures
        a == b,
{
}

/// The bytes of the instructions start at zero and leave no gap: every byte
/// below the byte of an instruction is itself the byte of one.
pub proof fn lemma_encoding_gapless(op: OpCode, byte: u8)
    requires
        byte <= encoding(op),
    ensures
        decoding(byte) is Ok,
{
}

/// Decoding fails on every byte that is the byte of no instruction, and on
/// no other; the error holds the byte.
pub proof fn lemma_decode_unknown(byte: u8)
    ensures
        (forall|op: OpCode| #[trigger] encoding(op) != byte) <==> decoding(byte) is Err,
        decoding(byte) is Err ==> decoding(byte) == Err::<OpCode, DecodeError>(
            DecodeError { byte },
        ),
{
    assert(encoding(OpCode::OpConstant) == 0);
    assert(encoding(OpCode::OpReturn) == 1);
}

} // verus!
