//! The disassembler: a chunk's instructions as a listing, one line each.

use vstd::prelude::*;
use crate::chunk::{Chunk, ChunkView};
use crate::opcode::{decoding, DecodeError, OpCode};
use crate::text::{decimal, push_decimal_column, right_aligned, Fill};

verus! {

/// What is wrong with the bytes where an instruction should stand.
#[derive(Clone, Copy, Debug, PartialEq, Eq, Structural)]
pub enum Fault {
    /// The byte at the instruction's offset stands for no instruction.
    Decode(DecodeError),
    /// The code ends where the instruction's operand should stand.
    MissingOperand,
    /// The operand is the index of no constant of the pool.
    OutOfBounds { index: usize },
}

/// A listing that stopped before the end of the code.
#[derive(Clone, Copy, Debug, PartialEq, Eq, Structural)]
pub struct DisassembleError {
    /// Where the instruction that could not be listed starts.
    pub offset: usize,
    /// What is wrong there.
    pub fault: Fault,
}

/// What follows the margin for an instruction `name` that has no operand:
/// the name alone; and the offset of the next instruction.
pub open spec fn simple_line(name: Seq<char>, offset: int) -> (Seq<char>, int) {
    (name + "\n"@, offset + 1)
}

/// The outcome of a listing: the first instruction that could not be listed
/// is the error.
pub open spec fn outcome(stopped: Option<DisassembleError>) -> Result<(), DisassembleError> {
    match stopped {
        Some(error) => Err(error),
        None => Ok(()),
    }
}

impl ChunkView {
    /// The two columns that start an instruction's line: its offset, with
    /// zeros up to four digits, and its source line, or a bar where the
    /// instruction before it came from the same line.
    pub open spec fn margin(self, offset: int, previous: Option<usize>) -> Seq<char>
        recommends
            0 <= offset < self.lines.len(),
    {
        let line = self.lines[offset];
        right_aligned(decimal(offset as nat), 4, '0') + " "@ + (if previous == Some(line) {
            "   | "@
        } else {
            right_aligned(decimal(line as nat), 4, ' ') + " "@
        })
    }

    /// What follows the margin for an instruction `name` that has one
    /// operand, the index of a constant: the name, a space, the index at the
    /// right edge of four columns, and the constant between quotes; and the
    /// offset of the next instruction. There is no such text where the code
    /// ends before the operand, or where the pool has no constant of that
    /// index.
    pub open spec fn constant_line(self, name: Seq<char>, offset: int) -> Result<
        (Seq<char>, int),
        Fault,
    > {
        if offset + 1 >= self.code.len() {
            Err(Fault::MissingOperand)
        } else {
            let index = self.code[offset + 1];
            if index >= self.constants.len() {
                Err(Fault::OutOfBounds { index: index as usize })
            } else {
                Ok(
                    (
                        name + " "@ + right_aligned(decimal(index as nat), 4, ' ') + " '"@
                            + self.constants[index as int].shown() + "'\n"@,
                        offset + 2,
                    ),
                )
            }
        }
    }

    /// What follows the margin for the instruction at `offset`, and the
    /// offset of the next instruction; or why there is no such text.
    pub open spec fn instruction(self, offset: int) -> Result<(Seq<char>, int), Fault>
        recommends
            0 <= offset < self.code.len(),
    {
        match decoding(self.code[offset]) {
            Err(error) => Err(Fault::Decode(error)),
            Ok(OpCode::OpReturn) => Ok(simple_line("OP_RETURN"@, offset)),
            Ok(OpCode::OpConstant) => self.constant_line("OP_CONSTANT"@, offset),
        }
    }

    /// The lines of the instructions from `offset` on, where `previous` is
    /// the source line of the instruction before, and the first instruction
    /// that cannot be listed, if there is one. The text then ends with the
    /// margin of that instruction.
    pub open spec fn listing_from(self, offset: int, previous: Option<usize>) -> (
        Seq<char>,
        Option<DisassembleError>,
    )
        decreases self.code.len() - offset,
    {
        if 0 <= offset < self.code.len() {
            match self.instruction(offset) {
                Err(fault) => (
                    self.margin(offset, previous),
                    Some(DisassembleError { offset: offset as usize, fault }),
                ),
                Ok((text, next)) => {
                    let rest = self.listing_from(next, Some(self.lines[offset]));
                    (self.margin(offset, previous) + text + rest.0, rest.1)
                },
            }
        } else {
            (Seq::empty(), None)
        }
    }

    /// The whole listing under the heading `name`, and the first
    /// instruction that cannot be listed, if there is one.
    pub open spec fn listing(self, name: Seq<char>) -> (Seq<char>, Option<DisassembleError>) {
        let body = self.listing_from(0, None);
        ("== "@ + name + " ==\n"@ + body.0, body.1)
    }
}

/// A listing is a function of what the chunk holds and of the name: two
/// listings of one chunk under one name, appended to the same text, give the
/// same text and end the same way.
pub proof fn lemma_disassemble_deterministic(
    chunk: Chunk,
    name: &str,
    before: Seq<char>,
    first: (Seq<char>, Result<(), DisassembleError>),
    second: (Seq<char>, Result<(), DisassembleError>),
)
    requires
        first.0 == before + chunk@.listing(name@).0,
        first.1 == outcome(chunk@.listing(name@).1),
        second.0 == before + chunk@.listing(name@).0,
        second.1 == outcome(chunk@.listing(name@).1),
    ensures
        first == second,
{
}

impl Chunk {
    /// Appends to `out` a listing of the chunk: a heading with `name`, then
    /// one line for each instruction, from the first byte of the code to its
    /// end.
    ///
    /// At the first instruction that cannot be listed the listing stops,
    /// after that instruction's margin, and the error says where and why.
    pub fn disassemble(&self, name: &str, out: &mut String) -> (result: Result<
        (),
        DisassembleError,
    >)
        ensures
            final(out)@ == old(out)@ + self@.listing(name@).0,
            result == outcome(self@.listing(name@).1),
    {
        out.append("== ");
        out.append(name);
        out.append(" ==\n");
        let ghost heading = out@;
        assert(heading =~= old(out)@ + ("== "@ + name@ + " ==\n"@));
        let code = self.code();
        let lines = self.lines();
        let mut offset: usize = 0;
        let mut previous: Option<usize> = None;
        while offset < code.len()
            invariant
                heading == old(out)@ + ("== "@ + name@ + " ==\n"@),
                code@ == self@.code,
                lines@ == self@.lines,
                lines@.len() == code@.len(),
                offset <= code@.len(),
                heading + self@.listing_from(0, None).0 == out@ + self@.listing_from(
                    offset as int,
                    previous,
                ).0,
                self@.listing_from(0, None).1 == self@.listing_from(offset as int, previous).1,
            decreases code@.len() - offset,
        {
            let ghost before = out@;
            let line = lines[offset];
            match self.disassemble_instruction(offset, previous, out) {
                Err(error) => {
                    assert(heading + self@.listing_from(0, None).0 =~= out@);
                    assert(out@ =~= old(out)@ + self@.listing(name@).0);
                    return Err(error);
                },
                Ok(next) => {
                    assert(before + self@.listing_from(offset as int, previous).0 =~= out@
                        + self@.listing_from(next as int, Some(line)).0);
                    previous = Some(line);
                    offset = next;
                },
            }
        }
        assert(out@ =~= old(out)@ + self@.listing(name@).0);
        Ok(())
    }

    /// Appends to `out` the line of the instruction at `offset`, where
    /// `previous` is the source line of the instruction before it, and
    /// returns the offset of the next instruction.
    ///
    /// Where the instruction cannot be listed, only its margin is appended.
    fn disassemble_instruction(
        &self,
        offset: usize,
        previous: Option<usize>,
        out: &mut String,
    ) -> (result: Result<usize, DisassembleError>)
        requires
            offset < self@.code.len(),
        ensures
            match self@.instruction(offset as int) {
                Ok((text, next)) => {
                    &&& result == Ok::<usize, DisassembleError>(next as usize)
                    &&& offset < next <= self@.code.len()
                    &&& final(out)@ == old(out)@ + self@.margin(offset as int, previous) + text
                },
                Err(fault) => {
                    &&& result == Err::<usize, DisassembleError>(DisassembleError { offset, fault })
                    &&& final(out)@ == old(out)@ + self@.margin(offset as int, previous)
                },
            },
    {
        let code = self.code();
        let lines = self.lines();
        assert(code@.len() == code.len());
        push_decimal_column(out, offset, 4, Fill::Zero);
        out.append(" ");
        let line = lines[offset];
        let same = match previous {
            Some(before) => before == line,
            None => false,
        };
        if same {
            out.append("   | ");
        } else {
            push_decimal_column(out, line, 4, Fill::Space);
            out.append(" ");
        }
        assert(out@ =~= old(out)@ + self@.margin(offset as int, previous));
        match OpCode::try_from(code[offset]) {
            Err(error) => Err(DisassembleError { offset, fault: Fault::Decode(error) }),
            Ok(OpCode::OpReturn) => Ok(simple_instruction("OP_RETURN", offset, out)),
            Ok(OpCode::OpConstant) => match constant_instruction("OP_CONSTANT", self, offset, out) {
                Ok(next) => Ok(next),
                Err(fault) => Err(DisassembleError { offset, fault }),
            },
        }
    }
}

/// Appends to `out` the rest of the line of an instruction without operands,
/// and returns the offset of the next instruction.
fn simple_instruction(name: &str, offset: usize, out: &mut String) -> (next: usize)
    requires
        offset < usize::MAX,
    ensures
        final(out)@ == old(out)@ + simple_line(name@, offset as int).0,
        next == simple_line(name@, offset as int).1,
{
    out.append(name);
    out.append("\n");
    assert(out@ =~= old(out)@ + (name@ + "\n"@));
    offset + 1
}

/// Appends to `out` the rest of the line of an instruction whose operand is
/// the index of a constant, and returns the offset of the next instruction.
///
/// Where the operand is missing or is the index of no constant, nothing is
/// appended.
fn constant_instruction(name: &str, chunk: &Chunk, offset: usize, out: &mut String) -> (result:
    Result<usize, Fault>)
    requires
        offset < chunk@.code.len(),
    ensures
        match chunk@.constant_line(name@, offset as int) {
            Ok((text, next)) => {
                &&& result == Ok::<usize, Fault>(next as usize)
                &&& next == offset + 2
                &&& next <= chunk@.code.len()
                &&& final(out)@ == old(out)@ + text
            },
            Err(fault) => {
                &&& result == Err::<usize, Fault>(fault)
                &&& final(out)@ == old(out)@
            },
        },
{
    let code = chunk.code();
    let constants = chunk.constants();
    assert(code@.len() == code.len());
    if offset + 1 >= code.len() {
        return Err(Fault::MissingOperand);
    }
    let constant: usize = code[offset + 1] as usize;
    if constant >= constants.len() {
        return Err(Fault::OutOfBounds { index: constant });
    }
    let value = &constants[constant];
    assert(value@ == chunk@.constants[constant as int]);
    out.append(name);
    out.append(" ");
    push_decimal_column(out, constant, 4, Fill::Space);
    out.append(" '");
    out.append(value.shown());
    out.append("'\n");
    assert(out@ =~= old(out)@ + chunk@.constant_line(name@, offset as int).unwrap().0);
    Ok(offset + 2)
}

} // verus!
