use retour::{Bitness, CodeEmitter, Error, HookArch, Register, RipRelativeCode, Thunk};

const TARGET: usize = 0x40_1000;
const HOOK: usize = 0x50_2000;

fn thunks_of(arch: &HookArch) -> &[Thunk] {
  let e: &CodeEmitter = arch.emitter();
  e.thunks()
}

fn expected(wide: bool, original: Thunk, next: usize) -> Vec<Thunk> {
  vec![
    Thunk::PushReg(Register::Bp),
    Thunk::MovReg { from: Register::Sp, to: Register::Bp, wide },
    Thunk::AndRegI32 { reg: Register::Sp, value: -16, wide },
    Thunk::Call(HOOK),
    Thunk::MovReg { from: Register::Bp, to: Register::Sp, wide },
    Thunk::PopReg(Register::Bp),
    original,
    Thunk::Jmp(next),
  ]
}

#[test]
fn plain_instruction_is_copied() {
  // push rbp; mov rbp, rsp
  let code = [0x55, 0x48, 0x89, 0xE5];
  let arch = HookArch::new(TARGET, HOOK, &code, Bitness::X64).unwrap();
  assert_eq!(thunks_of(&arch), expected(true, Thunk::Copy(vec![0x55]), TARGET + 1).as_slice());
}

#[test]
fn longer_instruction_is_copied_whole() {
  // mov rbp, rsp
  let code = [0x48, 0x89, 0xE5, 0x90];
  let arch = HookArch::new(TARGET, HOOK, &code, Bitness::X64).unwrap();
  assert_eq!(
    thunks_of(&arch),
    expected(true, Thunk::Copy(vec![0x48, 0x89, 0xE5]), TARGET + 3).as_slice()
  );
}

#[test]
fn x86_mode_uses_narrow_registers() {
  // inc eax (0x40 is a REX prefix in 64-bit mode, an instruction in 32-bit mode)
  let code = [0x40, 0x90];
  let arch = HookArch::new(TARGET, HOOK, &code, Bitness::X86).unwrap();
  assert_eq!(thunks_of(&arch), expected(false, Thunk::Copy(vec![0x40]), TARGET + 1).as_slice());
}

#[test]
fn invalid_code_is_refused() {
  // push es does not exist in 64-bit mode
  assert_eq!(HookArch::new(TARGET, HOOK, &[0x06], Bitness::X64).unwrap_err(), Error::InvalidCode);
  // no bytes at all
  assert_eq!(HookArch::new(TARGET, HOOK, &[], Bitness::X64).unwrap_err(), Error::InvalidCode);
  // an instruction cut short
  assert_eq!(
    HookArch::new(TARGET, HOOK, &[0xE8, 0x10], Bitness::X64).unwrap_err(),
    Error::InvalidCode
  );
}

#[test]
fn relative_call_becomes_absolute_call() {
  // call rel32 +0x10
  let code = [0xE8, 0x10, 0x00, 0x00, 0x00];
  let arch = HookArch::new(TARGET, HOOK, &code, Bitness::X64).unwrap();
  assert_eq!(thunks_of(&arch), expected(true, Thunk::Call(TARGET + 5 + 0x10), TARGET + 5).as_slice());
}

#[test]
fn relative_jump_becomes_absolute_jump() {
  // jmp rel8 +5
  let code = [0xEB, 0x05];
  let arch = HookArch::new(TARGET, HOOK, &code, Bitness::X64).unwrap();
  assert_eq!(thunks_of(&arch), expected(true, Thunk::Jmp(TARGET + 7), TARGET + 2).as_slice());
  // jmp rel32 -0x10
  let code = [0xE9, 0xF0, 0xFF, 0xFF, 0xFF];
  let arch = HookArch::new(TARGET, HOOK, &code, Bitness::X86).unwrap();
  assert_eq!(thunks_of(&arch), expected(false, Thunk::Jmp(TARGET + 5 - 0x10), TARGET + 5).as_slice());
}

#[test]
fn conditional_jump_keeps_its_condition() {
  // jz rel8 +5: condition 4
  let code = [0x74, 0x05];
  let arch = HookArch::new(TARGET, HOOK, &code, Bitness::X64).unwrap();
  assert_eq!(
    thunks_of(&arch),
    expected(true, Thunk::Jcc { destination: TARGET + 7, condition: 4 }, TARGET + 2).as_slice()
  );
  // jne rel32 +0x100: 0F 85, condition 5
  let code = [0x0F, 0x85, 0x00, 0x01, 0x00, 0x00];
  let arch = HookArch::new(TARGET, HOOK, &code, Bitness::X64).unwrap();
  assert_eq!(
    thunks_of(&arch),
    expected(true, Thunk::Jcc { destination: TARGET + 6 + 0x100, condition: 5 }, TARGET + 6).as_slice()
  );
}

#[test]
fn loops_are_unsupported() {
  // loop -2
  assert_eq!(
    HookArch::new(TARGET, HOOK, &[0xE2, 0xFE], Bitness::X64).unwrap_err(),
    Error::UnsupportedInstruction
  );
  // loopne +0
  assert_eq!(
    HookArch::new(TARGET, HOOK, &[0xE0, 0x00], Bitness::X64).unwrap_err(),
    Error::UnsupportedInstruction
  );
  // jrcxz +0
  assert_eq!(
    HookArch::new(TARGET, HOOK, &[0xE3, 0x00], Bitness::X64).unwrap_err(),
    Error::UnsupportedInstruction
  );
}

#[test]
fn rip_relative_operand_is_retargeted() {
  // mov eax, [rip+0x10]
  let code = [0x8B, 0x05, 0x10, 0x00, 0x00, 0x00];
  let arch = HookArch::new(TARGET, HOOK, &code, Bitness::X64).unwrap();
  let rip = RipRelativeCode::new(code.to_vec(), TARGET + 6 + 0x10, 0);
  assert_eq!(thunks_of(&arch), expected(true, Thunk::RipRelative(rip), TARGET + 6).as_slice());
}

#[test]
fn rip_relative_operand_with_immediate() {
  // cmp dword ptr [rip+0x20], 5: 83 3D disp32 imm8
  let code = [0x83, 0x3D, 0x20, 0x00, 0x00, 0x00, 0x05, 0xC3];
  let arch = HookArch::new(TARGET, HOOK, &code, Bitness::X64).unwrap();
  let thunks = thunks_of(&arch);
  assert_eq!(thunks.len(), 8);
  match &thunks[6] {
    Thunk::RipRelative(rip) => {
      assert_eq!(rip, &RipRelativeCode::new(code[..7].to_vec(), TARGET + 7 + 0x20, 1));
      // Placed 0x1000 bytes further, the displacement shrinks by 0x1000.
      let moved = rip.generate(TARGET + 0x1000);
      assert_eq!(moved, vec![0x83, 0x3D, 0x20, 0xF0, 0xFF, 0xFF, 0x05]);
    },
    other => panic!("unexpected thunk {:?}", other),
  }
}

#[test]
fn rip_relative_copy_at_the_target_is_the_original() {
  // lea rax, [rip-0x100]
  let code = [0x48, 0x8D, 0x05, 0x00, 0xFF, 0xFF, 0xFF];
  let arch = HookArch::new(TARGET, HOOK, &code, Bitness::X64).unwrap();
  match &arch.emitter().thunks()[6] {
    Thunk::RipRelative(rip) => {
      assert_eq!(rip, &RipRelativeCode::new(code.to_vec(), TARGET + 7 - 0x100, 0));
      assert_eq!(rip.generate(TARGET), code.to_vec());
    },
    other => panic!("unexpected thunk {:?}", other),
  }
}

fn near_branch(destination: u64, len: usize) -> retour::DecodedInstruction {
  retour::DecodedInstruction {
    len,
    is_invalid: false,
    op_count: 1,
    op_kinds: [2, 0, 0, 0, 0],
    is_ip_rel_memory_operand: false,
    ip_rel_memory_address: 0,
    near_branch_target: destination,
    is_call_near: false,
    is_jmp_short_or_near: false,
    is_loop: false,
    is_loopcc: false,
    is_jcx_short: false,
  }
}

#[test]
fn decoded_branch_without_primary_opcode_is_invalid() {
  let d = near_branch(0x1234, 2);
  assert_eq!(
    HookArch::from_decoded(TARGET, HOOK, &[0x0F, 0x0F], &d, Bitness::X64).unwrap_err(),
    Error::InvalidCode
  );
  // With a primary opcode after the escape, its low bits give the condition.
  let arch = HookArch::from_decoded(TARGET, HOOK, &[0x0F, 0x8C], &d, Bitness::X64).unwrap();
  assert_eq!(arch.emitter().thunks()[6], Thunk::Jcc { destination: 0x1234, condition: 0xC });
}

#[test]
fn decoded_invalid_instruction_is_refused() {
  let mut d = near_branch(0, 0);
  d.is_invalid = true;
  assert_eq!(
    HookArch::from_decoded(TARGET, HOOK, &[], &d, Bitness::X86).unwrap_err(),
    Error::InvalidCode
  );
}

/// Runs the stack-handling thunks on a small model of sp, bp and memory.
fn simulate(thunks: &[Thunk], sp: &mut u64, bp: &mut u64, memory: &mut std::collections::HashMap<u64, u64>, word: u64) {
  for t in thunks {
    match t {
      Thunk::PushReg(r) => {
        *sp -= word;
        let v = if *r == Register::Bp { *bp } else { *sp };
        memory.insert(*sp, v);
      },
      Thunk::PopReg(r) => {
        let v = memory[&*sp];
        *sp += word;
        if *r == Register::Bp { *bp = v } else { *sp = v }
      },
      Thunk::MovReg { from, to, .. } => {
        let v = if *from == Register::Bp { *bp } else { *sp };
        if *to == Register::Bp { *bp = v } else { *sp = v }
      },
      Thunk::AndRegI32 { reg, value, .. } => {
        let mask = *value as i64 as u64;
        if *reg == Register::Bp { *bp &= mask } else { *sp &= mask }
      },
      _ => {},
    }
  }
}

#[test]
fn hook_code_aligns_and_restores_the_stack() {
  for (bitness, word) in [(Bitness::X64, 8u64), (Bitness::X86, 4u64)] {
    let arch = HookArch::new(TARGET, HOOK, &[0x90], bitness).unwrap();
    let thunks = arch.emitter().thunks();
    for entry_sp in [0x7FF0u64, 0x7FF8, 0x7FFC, 0x8003] {
      let (mut sp, mut bp) = (entry_sp, 0x1234u64);
      let mut memory = std::collections::HashMap::new();
      simulate(&thunks[..3], &mut sp, &mut bp, &mut memory, word);
      assert_eq!(sp % 16, 0);
      assert_eq!(thunks[3], Thunk::Call(HOOK));
      simulate(&thunks[4..6], &mut sp, &mut bp, &mut memory, word);
      assert_eq!((sp, bp), (entry_sp, 0x1234));
    }
  }
}
