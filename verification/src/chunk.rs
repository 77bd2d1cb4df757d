//! The chunk: a program's bytes, the constants they refer to, and the source
//! line of every byte.

use vstd::prelude::*;
use crate::value::{Value, ValueView};

verus! {

/// A unit of bytecode. It only grows: bytes and constants are added at the
/// end and never changed or taken out.
#[derive(Debug)]
pub struct Chunk {
    code: Vec<u8>,
    constants: Vec<Value>,
    lines: Vec<usize>,
}

/// What a [`Chunk`] holds.
pub struct ChunkView {
    /// The instructions, each an opcode byte and then its operand bytes.
    pub code: Seq<u8>,
    /// The constant pool, which operand bytes refer to by index.
    pub constants: Seq<ValueView>,
    /// For every byte of `code`, the source line it came from.
    pub lines: Seq<usize>,
}

/// The constants of `values`, each by its view.
pub open spec fn views(values: Seq<Value>) -> Seq<ValueView> {
    values.map_values(|value: Value| value@)
}

impl View for Chunk {
    type V = ChunkView;

    closed spec fn view(&self) -> ChunkView {
        ChunkView { code: self.code@, constants: views(self.constants@), lines: self.lines@ }
    }
}

impl Default for Chunk {
    /// A chunk with no bytes and no constants.
    fn default() -> (chunk: Chunk)
        ensures
            chunk@.code == Seq::<u8>::empty(),
            chunk@.constants == Seq::<ValueView>::empty(),
            chunk@.lines == Seq::<usize>::empty(),
    {
        Chunk { code: Vec::new(), constants: Vec::new(), lines: Vec::new() }
    }
}

impl Chunk {
    /// Every byte has its line.
    #[verifier::type_invariant]
    spec fn aligned(self) -> bool {
        self.lines@.len() == self.code@.len()
    }

    /// A chunk with no bytes and no constants.
    pub fn new() -> (chunk: Chunk)
        ensures
            chunk@.code == Seq::<u8>::empty(),
            chunk@.constants == Seq::<ValueView>::empty(),
            chunk@.lines == Seq::<usize>::empty(),
    {
        Chunk::default()
    }

    /// Appends one byte, an opcode or an operand, and the source line it
    /// came from.
    pub fn write_byte(&mut self, byte: u8, line: usize)
        ensures
            final(self)@.code == old(self)@.code.push(byte),
            final(self)@.lines == old(self)@.lines.push(line),
            final(self)@.constants == old(self)@.constants,
            final(self)@.lines.len() == final(self)@.code.len(),
    {
        proof {
            use_type_invariant(&*self);
        }
        // The parts are taken out and grown side by side, so that the chunk
        // is never seen with a byte that has no line.
        let mut taken = Chunk::new();
        std::mem::swap(self, &mut taken);
        let Chunk { mut code, constants, mut lines } = taken;
        code.push(byte);
        lines.push(line);
        *self = Chunk { code, constants, lines };
    }

    /// Appends a constant to the pool and returns its index.
    pub fn add_constant(&mut self, constant: Value) -> (index: usize)
        ensures
            index == old(self)@.constants.len(),
            final(self)@.constants == old(self)@.constants.push(constant@),
            final(self)@.constants[index as int] == constant@,
            final(self)@.code == old(self)@.code,
            final(self)@.lines == old(self)@.lines,
    {
        proof {
            use_type_invariant(&*self);
        }
        let mut taken = Chunk::new();
        std::mem::swap(self, &mut taken);
        let Chunk { code, mut constants, lines } = taken;
        let index = constants.len();
        constants.push(constant);
        assert(views(constants@) =~= views(old(self).constants@).push(constant@));
        *self = Chunk { code, constants, lines };
        index
    }

    /// The bytes of the program.
    pub fn code(&self) -> (code: &[u8])
        ensures
            code@ == self@.code,
    {
        self.code.as_slice()
    }

    /// The constant pool.
    pub fn constants(&self) -> (constants: &[Value])
        ensures
            views(constants@) == self@.constants,
    {
        self.constants.as_slice()
    }

    /// The source line of every byte: as many lines as there are bytes.
    pub fn lines(&self) -> (lines: &[usize])
        ensures
            lines@ == self@.lines,
            lines@.len() == self@.code.len(),
    {
        proof {
            use_type_invariant(self);
        }
        self.lines.as_slice()
    }
}

} // verus!
