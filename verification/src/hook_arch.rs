use vstd::prelude::*;

use crate::decode::{
    decode, is_relative_destination, x86_decode, Bitness, DecodedInstruction, MAX_INSTRUCTION_SIZE,
};
use crate::error::Error;
use crate::relocate::{RipRelativeCode, RipRelativeSpec};
use crate::stack::{
    address_space, lemma_and_minus_16, returns_preserving, run, word_size, StackMachine,
};
use crate::thunk::{CodeEmitter, Register, Thunk, ThunkSpec};

verus! {

/// The first byte of `bytes`, from position `i` on, that is not the
/// two-byte-opcode escape `0x0F`.
pub open spec fn primary_opcode_from(bytes: Seq<u8>, i: int) -> Option<u8>
    decreases bytes.len() - i,
{
    if i < 0 || i >= bytes.len() {
        None
    } else if bytes[i] != 0x0F {
        Some(bytes[i])
    } else {
        primary_opcode_from(bytes, i + 1)
    }
}

/// The primary opcode of a conditional jump: short jumps have it first,
/// near ones after the escape `0x0F`.
pub open spec fn primary_opcode(bytes: Seq<u8>) -> Option<u8> {
    primary_opcode_from(bytes, 0)
}

/// How an instruction that branches relative to itself to `destination` is
/// carried over.
pub open spec fn branch_thunk(
    instruction: DecodedInstruction,
    bytes: Seq<u8>,
    destination: usize,
) -> Result<ThunkSpec, Error> {
    if instruction.is_call_near {
        // A call returns to the copy, which then continues as the target would.
        Ok(ThunkSpec::Call(destination))
    } else if instruction.spec_is_loop() {
        Err(Error::UnsupportedInstruction)
    } else if instruction.is_jmp_short_or_near {
        Ok(ThunkSpec::Jmp(destination))
    } else {
        match primary_opcode(bytes) {
            // The condition code is the low four bits of the primary opcode.
            Some(op) => Ok(ThunkSpec::Jcc { destination, condition: (op % 16) as u8 }),
            // Bytes without a primary opcode are no conditional jump.
            None => Err(Error::InvalidCode),
        }
    }
}

/// How the instruction of `bytes` is carried over into the hook's code.
pub open spec fn relocated_instruction(instruction: DecodedInstruction, bytes: Seq<u8>) -> Result<
    ThunkSpec,
    Error,
> {
    match instruction.spec_rip_operand_target() {
        Some(target) => Ok(
            ThunkSpec::RipRelative(
                RipRelativeSpec {
                    bytes,
                    target: target as usize,
                    immediate_size: instruction.spec_immediate_size(),
                },
            ),
        ),
        None => match instruction.spec_relative_branch_target() {
            Some(destination) => branch_thunk(instruction, bytes, destination as usize),
            // Nothing depends on the position: the bytes are copied as they are.
            None => Ok(ThunkSpec::Copy(bytes)),
        },
    }
}

/// The code of a hook on the instruction `instruction`, decoded from `code`
/// at `target`: the stack is aligned to 16 bytes around a call of `hook`,
/// then the displaced instruction runs, then execution continues after it.
pub open spec fn hook_code(
    target: usize,
    hook: usize,
    instruction: DecodedInstruction,
    code: Seq<u8>,
    bitness: Bitness,
) -> Result<Seq<ThunkSpec>, Error> {
    let wide = bitness == Bitness::X64;
    if instruction.is_invalid {
        Err(Error::InvalidCode)
    } else {
        match relocated_instruction(instruction, code.take(instruction.len as int)) {
            Err(e) => Err(e),
            Ok(displaced) => Ok(
                seq![
                    ThunkSpec::PushReg(Register::Bp),
                    ThunkSpec::MovReg { from: Register::Sp, to: Register::Bp, wide },
                    ThunkSpec::AndRegI32 { reg: Register::Sp, value: -16i32, wide },
                    ThunkSpec::Call(hook),
                    ThunkSpec::MovReg { from: Register::Bp, to: Register::Sp, wide },
                    ThunkSpec::PopReg(Register::Bp),
                    displaced,
                    ThunkSpec::Jmp((target + instruction.len) as usize),
                ],
            ),
        }
    }
}

/// The hook's code, whenever it can be built: the frame pointer is saved and
/// the stack aligned, the hook is called, the stack pointer and the frame
/// pointer are restored in reverse order, the displaced instruction runs,
/// and execution continues at the instruction after it.
pub proof fn lemma_hook_code_layout(
    target: usize,
    hook: usize,
    instruction: DecodedInstruction,
    code: Seq<u8>,
    bitness: Bitness,
)
    requires
        hook_code(target, hook, instruction, code, bitness) is Ok,
    ensures
        ({
            let s = hook_code(target, hook, instruction, code, bitness)->Ok_0;
            let wide = bitness == Bitness::X64;
            &&& !instruction.is_invalid
            &&& s.len() == 8
            &&& s[0] == ThunkSpec::PushReg(Register::Bp) && s[5] == ThunkSpec::PopReg(Register::Bp)
            &&& s[1] == ThunkSpec::MovReg { from: Register::Sp, to: Register::Bp, wide }
            &&& s[4] == ThunkSpec::MovReg { from: Register::Bp, to: Register::Sp, wide }
            &&& s[2] == ThunkSpec::AndRegI32 { reg: Register::Sp, value: -16i32, wide }
            &&& s[3] == ThunkSpec::Call(hook)
            &&& Ok::<ThunkSpec, Error>(s[6]) == relocated_instruction(
                instruction,
                code.take(instruction.len as int),
            )
            &&& s[7] == ThunkSpec::Jmp((target + instruction.len) as usize)
        }),
{
}

/// The hook's code keeps the stack discipline: entered with any stack
/// pointer `sp0` and frame pointer `bp0` (address arithmetic wraps around
/// the address space), it calls the hook with a stack pointer that
/// is a multiple of 16, and if the hook returns as the calling convention
/// asks, the displaced instruction starts with the stack pointer and the
/// frame pointer of the entry.
#[verifier::spinoff_prover]
#[verifier::rlimit(40)]
pub proof fn lemma_hook_code_keeps_stack(
    target: usize,
    hook: usize,
    instruction: DecodedInstruction,
    code: Seq<u8>,
    bitness: Bitness,
    entry: StackMachine,
    returned: StackMachine,
)
    requires
        hook_code(target, hook, instruction, code, bitness) is Ok,
        entry.well_formed(bitness == Bitness::X64),
        returns_preserving(
            run(
                entry,
                hook_code(target, hook, instruction, code, bitness)->Ok_0.take(3),
                bitness == Bitness::X64,
            ),
            returned,
        ),
    ensures
        ({
            let s = hook_code(target, hook, instruction, code, bitness)->Ok_0;
            let wide = bitness == Bitness::X64;
            let at_call = run(entry, s.take(3), wide);
            let after = run(returned, s.subrange(4, 6), wide);
            &&& s[3] == ThunkSpec::Call(hook)
            &&& at_call.sp % 16 == 0
            &&& after.sp == entry.sp
            &&& after.bp == entry.bp
        }),
{
    let s = hook_code(target, hook, instruction, code, bitness)->Ok_0;
    let wide = bitness == Bitness::X64;
    lemma_hook_code_layout(target, hook, instruction, code, bitness);
    let w = word_size(wide);
    let m1 = entry.step(s[0], wide);
    let m2 = m1.step(s[1], wide);
    let m3 = m2.step(s[2], wide);
    assert(m1.sp == (entry.sp - w) % address_space(wide));
    assert(0 <= m1.sp < address_space(wide));
    assert(m1.memory[m1.sp] == entry.bp);
    lemma_and_minus_16(m2.sp, wide);
    assert(m3.sp == m1.sp - m1.sp % 16);
    let t3 = s.take(3);
    assert(t3.drop_first().drop_first().drop_first() =~= Seq::<ThunkSpec>::empty());
    assert(t3.drop_first()[0] == s[1] && t3.drop_first().drop_first()[0] == s[2]);
    assert(run(entry, t3, wide) == m3) by {
        reveal_with_fuel(run, 4);
    }
    assert(m1.memory.contains_key(m1.sp));
    assert(m3.memory == m1.memory);
    assert(m3.memory.contains_key(m1.sp));
    assert(returned.memory[m1.sp] == entry.bp);
    let t2 = s.subrange(4, 6);
    let r1 = returned.step(s[4], wide);
    let r2 = r1.step(s[5], wide);
    assert(t2.drop_first().drop_first() =~= Seq::<ThunkSpec>::empty());
    assert(t2[0] == s[4] && t2.drop_first()[0] == s[5]);
    assert(run(returned, t2, wide) == r2) by {
        reveal_with_fuel(run, 3);
    }
    assert(r1.sp == m1.sp);
}

/// The destination of a call or jump thunk.
pub open spec fn branch_destination(t: ThunkSpec) -> Option<usize> {
    match t {
        ThunkSpec::Call(d) => Some(d),
        ThunkSpec::Jmp(d) => Some(d),
        ThunkSpec::Jcc { destination, condition: _ } => Some(destination),
        _ => None,
    }
}

/// A hook's code depends on no byte after the first 15: a valid
/// instruction is never longer.
pub proof fn lemma_hook_code_first_15_bytes(
    target: usize,
    hook: usize,
    instruction: DecodedInstruction,
    code: Seq<u8>,
    bitness: Bitness,
)
    requires
        code.len() >= 15,
        !instruction.is_invalid ==> instruction.len <= 15,
    ensures
        hook_code(target, hook, instruction, code, bitness) == hook_code(
            target,
            hook,
            instruction,
            code.take(15),
            bitness,
        ),
{
    if !instruction.is_invalid {
        assert(code.take(15).take(instruction.len as int) =~= code.take(instruction.len as int));
    }
}

/// A hook is refused only for what the instruction is, never for where it
/// stands: `InvalidCode` only for an invalid instruction or a conditional
/// jump without a primary opcode, `UnsupportedInstruction` only for a branch
/// of the loop family. Any other valid instruction gives the hook's code, at
/// every target, and two targets give the same code up to the final jump.
pub proof fn lemma_hook_code_refusals(
    target: usize,
    other_target: usize,
    hook: usize,
    instruction: DecodedInstruction,
    code: Seq<u8>,
    bitness: Bitness,
)
    ensures
        hook_code(target, hook, instruction, code, bitness) == Err::<Seq<ThunkSpec>, Error>(
            Error::InvalidCode,
        ) ==> instruction.is_invalid || (instruction.spec_rip_operand_target() is None
            && instruction.has_near_branch() && !instruction.is_call_near
            && !instruction.spec_is_loop() && !instruction.is_jmp_short_or_near && primary_opcode(
            code.take(instruction.len as int),
        ) is None),
        hook_code(target, hook, instruction, code, bitness) == Err::<Seq<ThunkSpec>, Error>(
            Error::UnsupportedInstruction,
        ) ==> !instruction.is_invalid && instruction.spec_rip_operand_target() is None
            && instruction.has_near_branch() && !instruction.is_call_near
            && instruction.spec_is_loop(),
        hook_code(target, hook, instruction, code, bitness) is Err ==> hook_code(target, hook, instruction, code, bitness) == Err::<Seq<ThunkSpec>, Error>(Error::InvalidCode) || hook_code(target, hook, instruction, code, bitness) == Err::<Seq<ThunkSpec>, Error>(Error::UnsupportedInstruction),
        !instruction.is_invalid && (instruction.spec_rip_operand_target() is Some
            || !instruction.has_near_branch()) ==> hook_code(target, hook, instruction, code, bitness) is Ok,
        (hook_code(target, hook, instruction, code, bitness) is Ok) == (hook_code(
            other_target,
            hook,
            instruction,
            code,
            bitness,
        ) is Ok),
        hook_code(target, hook, instruction, code, bitness) is Ok ==> hook_code(
            target,
            hook,
            instruction,
            code,
            bitness,
        )->Ok_0.take(7) == hook_code(other_target, hook, instruction, code, bitness)->Ok_0.take(7),
{
    let bytes = code.take(instruction.len as int);
    if !instruction.is_invalid {
        if let Ok(_) = relocated_instruction(instruction, bytes) {
            assert(hook_code(target, hook, instruction, code, bitness)->Ok_0.take(7)
                =~= hook_code(other_target, hook, instruction, code, bitness)->Ok_0.take(7));
        }
    }
}

/// A conditional jump keeps its condition, the low four bits of its primary
/// opcode: `0x70 + cc` in the short form, `0x0F 0x80 + cc` in the near form,
/// so both forms of one jump carry the same condition `cc`.
pub proof fn lemma_jcc_condition(
    instruction: DecodedInstruction,
    rest: Seq<u8>,
    destination: usize,
    cc: u8,
)
    requires
        cc < 16,
        !instruction.is_call_near,
        !instruction.spec_is_loop(),
        !instruction.is_jmp_short_or_near,
    ensures
        branch_thunk(instruction, seq![(0x70 + cc) as u8] + rest, destination) == Ok::<ThunkSpec, Error>(
            ThunkSpec::Jcc { destination, condition: cc },
        ),
        branch_thunk(instruction, seq![0x0Fu8, (0x80 + cc) as u8] + rest, destination) == Ok::<
            ThunkSpec,
            Error,
        >(ThunkSpec::Jcc { destination, condition: cc }),
{
    let short = seq![(0x70 + cc) as u8] + rest;
    let near = seq![0x0Fu8, (0x80 + cc) as u8] + rest;
    assert(short[0] == (0x70 + cc) as u8);
    assert(near[0] == 0x0F && near[1] == (0x80 + cc) as u8);
    assert(primary_opcode_from(near, 1) == Some((0x80 + cc) as u8));
}

/// Whether `r` is the outcome that `expected` describes.
pub open spec fn outcome_is(r: Result<HookArch, Error>, expected: Result<Seq<ThunkSpec>, Error>) -> bool {
    match r {
        Ok(h) => expected == Ok::<Seq<ThunkSpec>, Error>(h@),
        Err(e) => expected == Err::<Seq<ThunkSpec>, Error>(e),
    }
}

/// The code that calls a hook before an instruction of a target.
///
/// It is not a detour: the hook cannot be jumped to directly, it is called
/// with an aligned stack, and the instruction it displaced runs afterwards.
#[derive(Debug)]
pub struct HookArch {
    emitter: CodeEmitter,
}

impl View for HookArch {
    type V = Seq<ThunkSpec>;

    closed spec fn view(&self) -> Seq<ThunkSpec> {
        self.emitter@
    }
}

impl HookArch {
    /// Builds the hook for the instruction at `target`, whose bytes begin
    /// `code`, in the given mode.
    ///
    /// The outcome depends on no more than the first 15 bytes, and in 64-bit
    /// mode a branch carried over leads where the decoded branch led.
    pub fn new(target: usize, hook: usize, code: &[u8], bitness: Bitness) -> (r: Result<
        HookArch,
        Error,
    >)
        requires
            target + code.len() <= usize::MAX,
        ensures
            outcome_is(
                r,
                hook_code(
                    target,
                    hook,
                    x86_decode(bitness.spec_bits(), code@, target as u64),
                    code@,
                    bitness,
                ),
            ),
            code.len() >= MAX_INSTRUCTION_SIZE ==> outcome_is(
                r,
                hook_code(
                    target,
                    hook,
                    x86_decode(bitness.spec_bits(), code@.take(15), target as u64),
                    code@.take(15),
                    bitness,
                ),
            ),
            bitness == Bitness::X64 ==> (r matches Ok(h) ==> (branch_destination(h@[6]) matches Some(
                dest,
            ) ==> {
                let d = x86_decode(64, code@, target as u64);
                &&& dest == d.near_branch_target as usize
                &&& is_relative_destination(d.near_branch_target as int, target as u64, d.len, code@)
            })),
    {
        // The decoded bytes, followed by 15 that are never read.
        let mut padded = prefix(code, code.len());
        let mut i: usize = 0;
        while i < MAX_INSTRUCTION_SIZE
            invariant
                i <= MAX_INSTRUCTION_SIZE,
                padded@.len() == code@.len() + i,
                padded@.take(code.len() as int) == code@,
            decreases MAX_INSTRUCTION_SIZE - i,
        {
            padded.push(0);
            i = i + 1;
            assert(padded@.take(code.len() as int) =~= code@);
        }
        let instruction = decode(bitness.bits(), padded.as_slice(), code.len(), target as u64);
        proof {
            if code.len() >= MAX_INSTRUCTION_SIZE {
                assert(padded@.take(15) =~= code@.take(15));
                lemma_hook_code_first_15_bytes(target, hook, instruction, code@, bitness);
            }
            assert forall|j: int| 0 <= j < code.len() implies padded@[j] == code@[j] by {
                assert(padded@.take(code.len() as int)[j] == padded@[j]);
            }
        }
        HookArch::from_decoded(target, hook, code, &instruction, bitness)
    }

    /// Builds the hook for the instruction at `target` that `instruction`
    /// describes, decoded from `code`.
    pub fn from_decoded(
        target: usize,
        hook: usize,
        code: &[u8],
        instruction: &DecodedInstruction,
        bitness: Bitness,
    ) -> (r: Result<HookArch, Error>)
        requires
            target + code.len() <= usize::MAX,
            !instruction.is_invalid ==> instruction.len <= code.len(),
        ensures
            outcome_is(r, hook_code(target, hook, *instruction, code@, bitness)),
    {
        let builder = Builder { target, hook, bitness };
        builder.build(code, instruction)
    }

    /// The thunks of the hook's code, in order.
    pub fn emitter(&self) -> (r: &CodeEmitter)
        ensures
            r@ == self@,
    {
        &self.emitter
    }
}

struct Builder {
    target: usize,
    hook: usize,
    bitness: Bitness,
}

/// The first `n` bytes of `code`.
fn prefix(code: &[u8], n: usize) -> (r: Vec<u8>)
    requires
        n <= code.len(),
    ensures
        r@ == code@.take(n as int),
{
    let mut r: Vec<u8> = Vec::new();
    let mut i: usize = 0;
    while i < n
        invariant
            i <= n <= code.len(),
            r@ == code@.take(i as int),
        decreases n - i,
    {
        r.push(code[i]);
        i = i + 1;
        assert(r@ =~= code@.take(i as int));
    }
    r
}

/// The first byte of `bytes` that is not `0x0F`.
fn find_primary_opcode(bytes: &Vec<u8>) -> (r: Option<u8>)
    ensures
        r == primary_opcode(bytes@),
{
    let mut i: usize = 0;
    while i < bytes.len()
        invariant
            i <= bytes.len(),
            primary_opcode(bytes@) == primary_opcode_from(bytes@, i as int),
        decreases bytes.len() - i,
    {
        if bytes[i] != 0x0F {
            return Some(bytes[i]);
        }
        i = i + 1;
    }
    None
}

impl Builder {
    fn build(self, code: &[u8], instruction: &DecodedInstruction) -> (r: Result<HookArch, Error>)
        requires
            self.target + code.len() <= usize::MAX,
            !instruction.is_invalid ==> instruction.len <= code.len(),
        ensures
            outcome_is(r, hook_code(self.target, self.hook, *instruction, code@, self.bitness)),
    {
        if instruction.is_invalid {
            return Err(Error::InvalidCode);
        }
        let wide = match self.bitness {
            Bitness::X64 => true,
            Bitness::X86 => false,
        };
        let instruction_bytes = prefix(code, instruction.len);
        let displaced = match self.process_instruction(instruction, instruction_bytes) {
            Ok(t) => t,
            Err(e) => {
                return Err(e);
            },
        };
        let mut emitter = CodeEmitter::new();

        // Align the stack pointer.
        emitter.add_thunk(Thunk::PushReg(Register::Bp));
        emitter.add_thunk(Thunk::MovReg { from: Register::Sp, to: Register::Bp, wide });
        emitter.add_thunk(Thunk::AndRegI32 { reg: Register::Sp, value: -16, wide });

        // Call the hook.
        emitter.add_thunk(Thunk::Call(self.hook));

        // Restore the stack pointer.
        emitter.add_thunk(Thunk::MovReg { from: Register::Bp, to: Register::Sp, wide });
        emitter.add_thunk(Thunk::PopReg(Register::Bp));

        // The displaced instruction runs after the hook.
        emitter.add_thunk(displaced);

        // Jump back to the next instruction of the target.
        emitter.add_thunk(Thunk::Jmp(self.target + instruction.len));

        let r = HookArch { emitter };
        assert(r@ =~= hook_code(self.target, self.hook, *instruction, code@, self.bitness)->Ok_0);
        Ok(r)
    }

    /// The instruction, analysed and changed where its position matters.
    fn process_instruction(&self, instruction: &DecodedInstruction, bytes: Vec<u8>) -> (r: Result<
        Thunk,
        Error,
    >)
        ensures
            match r {
                Ok(t) => relocated_instruction(*instruction, bytes@) == Ok::<ThunkSpec, Error>(t@),
                Err(e) => relocated_instruction(*instruction, bytes@) == Err::<ThunkSpec, Error>(e),
            },
    {
        if let Some(target) = instruction.rip_operand_target() {
            return Ok(self.handle_rip_relative_instruction(instruction, bytes, target as usize));
        } else if let Some(destination) = instruction.relative_branch_target() {
            return self.handle_relative_branch(instruction, &bytes, destination as usize);
        }
        // Nothing depends on the position: the bytes can be copied as they are.
        Ok(Thunk::Copy(bytes))
    }

    /// Carries over a branch relative to the instruction pointer (`call`,
    /// `jmp`, `jcc`, `loop`).
    fn handle_relative_branch(
        &self,
        instruction: &DecodedInstruction,
        bytes: &Vec<u8>,
        destination: usize,
    ) -> (r: Result<Thunk, Error>)
        ensures
            match r {
                Ok(t) => branch_thunk(*instruction, bytes@, destination) == Ok::<ThunkSpec, Error>(
                    t@,
                ),
                Err(e) => branch_thunk(*instruction, bytes@, destination) == Err::<ThunkSpec, Error>(
                    e,
                ),
            },
    {
        if instruction.is_call_near {
            // Calls return to the copy, which continues as the target would.
            return Ok(Thunk::Call(destination));
        }
        if instruction.is_any_loop() {
            // Loops (`loop`, `loopnz`, `jecxz`...) that leave the copy are not supported.
            Err(Error::UnsupportedInstruction)
        } else if instruction.is_jmp_short_or_near {
            Ok(Thunk::Jmp(destination))
        } else {
            // A conditional jump. Short ones begin with their primary opcode,
            // near ones with the escape 0x0F before it; its low four bits are
            // the condition (0x74 is `jz rel8`, condition 4).
            match find_primary_opcode(bytes) {
                Some(op) => Ok(Thunk::Jcc { destination, condition: op % 16 }),
                None => Err(Error::InvalidCode),
            }
        }
    }

    /// Carries over an instruction with an operand relative to the
    /// instruction pointer, such as `mov eax, [rip+0x10]`: wherever the copy
    /// is placed, its displacement is adjusted to reach the same address.
    fn handle_rip_relative_instruction(
        &self,
        instruction: &DecodedInstruction,
        bytes: Vec<u8>,
        target: usize,
    ) -> (r: Thunk)
        ensures
            r@ == ThunkSpec::RipRelative(
                RipRelativeSpec {
                    bytes: bytes@,
                    target,
                    immediate_size: instruction.spec_immediate_size(),
                },
            ),
    {
        let immediate_size = instruction.immediate_size();
        Thunk::RipRelative(RipRelativeCode::new(bytes, target, immediate_size))
    }
}

} // verus!
