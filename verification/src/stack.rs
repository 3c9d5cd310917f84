use vstd::prelude::*;

use crate::thunk::{Register, ThunkSpec};

verus! {

/// The part of the processor state that the hook's stack handling touches:
/// the stack pointer, the frame pointer, and memory, one machine word per
/// address.
pub ghost struct StackMachine {
    pub sp: int,
    pub bp: int,
    pub memory: Map<int, int>,
}

/// The number of addresses in the mode (`wide` is 64-bit).
pub open spec fn address_space(wide: bool) -> int {
    if wide {
        0x1_0000_0000_0000_0000
    } else {
        0x1_0000_0000
    }
}

/// The size of a pushed register in the mode.
pub open spec fn word_size(wide: bool) -> int {
    if wide {
        8
    } else {
        4
    }
}

/// `and reg, value`: the register and the sign-extended immediate, bit by bit.
pub open spec fn and_immediate(x: int, value: i32, wide: bool) -> int {
    if wide {
        ((x as u64) & ((value as i64) as u64)) as int
    } else {
        ((x as u32) & (value as u32)) as int
    }
}

impl StackMachine {
    /// The value of a register.
    pub open spec fn reg(self, r: Register) -> int {
        match r {
            Register::Bp => self.bp,
            Register::Sp => self.sp,
        }
    }

    /// The state with a register set to `v`.
    pub open spec fn set(self, r: Register, v: int) -> StackMachine {
        match r {
            Register::Bp => StackMachine { bp: v, ..self },
            Register::Sp => StackMachine { sp: v, ..self },
        }
    }

    /// Both registers hold addresses of the mode.
    pub open spec fn well_formed(self, wide: bool) -> bool {
        &&& 0 <= self.sp < address_space(wide)
        &&& 0 <= self.bp < address_space(wide)
    }

    /// The state after a thunk that moves data between the registers and the
    /// stack; other thunks leave it unchanged here.
    pub open spec fn step(self, t: ThunkSpec, wide: bool) -> StackMachine {
        match t {
            ThunkSpec::PushReg(r) => {
                let sp = (self.sp - word_size(wide)) % address_space(wide);
                StackMachine { sp, memory: self.memory.insert(sp, self.reg(r)), ..self }
            },
            ThunkSpec::PopReg(r) => {
                let v = self.memory[self.sp];
                StackMachine { sp: (self.sp + word_size(wide)) % address_space(wide), ..self }.set(
                    r,
                    v,
                )
            },
            ThunkSpec::MovReg { from, to, wide: _ } => self.set(to, self.reg(from)),
            ThunkSpec::AndRegI32 { reg, value, wide: _ } => self.set(
                reg,
                and_immediate(self.reg(reg), value, wide),
            ),
            _ => self,
        }
    }
}

/// The state after running the thunks one after the other.
pub open spec fn run(m: StackMachine, thunks: Seq<ThunkSpec>, wide: bool) -> StackMachine
    decreases thunks.len(),
{
    if thunks.len() == 0 {
        m
    } else {
        run(m.step(thunks[0], wide), thunks.drop_first(), wide)
    }
}

/// What a called function that follows the calling convention leaves: the
/// stack and frame pointers as they were, and every stack slot at or above
/// the stack pointer unchanged.
pub open spec fn returns_preserving(before: StackMachine, after: StackMachine) -> bool {
    &&& after.sp == before.sp
    &&& after.bp == before.bp
    &&& forall|a: int|
        a >= before.sp && #[trigger] before.memory.contains_key(a) ==> after.memory.contains_key(a)
            && after.memory[a] == before.memory[a]
}

/// Clearing the low four bits with `and reg, -16` rounds down to a multiple of 16.
pub proof fn lemma_and_minus_16(x: int, wide: bool)
    requires
        0 <= x < address_space(wide),
    ensures
        and_immediate(x, -16i32, wide) == x - x % 16,
{
    if wide {
        let y = x as u64;
        assert(y & ((-16i32 as i64) as u64) == y - y % 16) by (bit_vector);
    } else {
        let y = x as u32;
        assert(y & (-16i32 as u32) == y - y % 16) by (bit_vector);
    }
}

} // verus!
