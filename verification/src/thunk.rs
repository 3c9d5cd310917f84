use vstd::prelude::*;

use crate::relocate::{RipRelativeCode, RipRelativeSpec};

verus! {

/// The registers that the hook's stack alignment uses (their 32-bit or
/// 64-bit form, after the mode).
#[derive(Debug, Clone, Copy, PartialEq, Eq, Structural)]
pub enum Register {
    /// The frame pointer, `ebp` or `rbp`.
    Bp,
    /// The stack pointer, `esp` or `rsp`.
    Sp,
}

/// One piece of position-independent code that the hook is made of.
#[derive(Debug, PartialEq, Eq)]
pub enum Thunk {
    /// `push reg`.
    PushReg(Register),
    /// `pop reg`.
    PopReg(Register),
    /// `mov to, from`; `wide` selects the 64-bit operand size.
    MovReg { from: Register, to: Register, wide: bool },
    /// `and reg, value`; `wide` selects the 64-bit operand size.
    AndRegI32 { reg: Register, value: i32, wide: bool },
    /// A call of the absolute address.
    Call(usize),
    /// A jump to the absolute address.
    Jmp(usize),
    /// A jump to the absolute address taken when the condition code holds.
    Jcc { destination: usize, condition: u8 },
    /// Bytes copied as they are.
    Copy(Vec<u8>),
    /// An instruction whose operand is relative to the instruction pointer,
    /// re-targeted wherever it is placed.
    RipRelative(RipRelativeCode),
}

/// The mathematical content of a [`Thunk`].
pub ghost enum ThunkSpec {
    PushReg(Register),
    PopReg(Register),
    MovReg { from: Register, to: Register, wide: bool },
    AndRegI32 { reg: Register, value: i32, wide: bool },
    Call(usize),
    Jmp(usize),
    Jcc { destination: usize, condition: u8 },
    Copy(Seq<u8>),
    RipRelative(RipRelativeSpec),
}

impl View for Thunk {
    type V = ThunkSpec;

    open spec fn view(&self) -> ThunkSpec {
        match self {
            Thunk::PushReg(r) => ThunkSpec::PushReg(*r),
            Thunk::PopReg(r) => ThunkSpec::PopReg(*r),
            Thunk::MovReg { from, to, wide } => ThunkSpec::MovReg { from: *from, to: *to, wide: *wide },
            Thunk::AndRegI32 { reg, value, wide } => ThunkSpec::AndRegI32 {
                reg: *reg,
                value: *value,
                wide: *wide,
            },
            Thunk::Call(d) => ThunkSpec::Call(*d),
            Thunk::Jmp(d) => ThunkSpec::Jmp(*d),
            Thunk::Jcc { destination, condition } => ThunkSpec::Jcc {
                destination: *destination,
                condition: *condition,
            },
            Thunk::Copy(bytes) => ThunkSpec::Copy(bytes@),
            Thunk::RipRelative(code) => ThunkSpec::RipRelative(code@),
        }
    }
}

/// An ordered sequence of thunks, emitted one after the other.
#[derive(Debug)]
pub struct CodeEmitter {
    thunks: Vec<Thunk>,
}

impl View for CodeEmitter {
    type V = Seq<ThunkSpec>;

    closed spec fn view(&self) -> Seq<ThunkSpec> {
        self.thunks@.map_values(|t: Thunk| t@)
    }
}

impl CodeEmitter {
    /// An emitter without thunks.
    pub fn new() -> (r: CodeEmitter)
        ensures
            r@ == Seq::<ThunkSpec>::empty(),
    {
        let r = CodeEmitter { thunks: Vec::new() };
        assert(r@ =~= Seq::<ThunkSpec>::empty());
        r
    }

    /// Appends a thunk after the ones already added.
    pub fn add_thunk(&mut self, thunk: Thunk)
        ensures
            final(self)@ == old(self)@.push(thunk@),
    {
        self.thunks.push(thunk);
        assert(self@ =~= old(self)@.push(thunk@));
    }

    /// The thunks in the order they are emitted.
    pub fn thunks(&self) -> (r: &[Thunk])
        ensures
            r@.map_values(|t: Thunk| t@) == self@,
    {
        self.thunks.as_slice()
    }
}

} // verus!
