use retour::hook::{check_distinct, prepare};
use retour::{Bitness, Error, Hook, RawHook, Thunk, ToggleStep};

#[test]
fn same_address_is_refused() {
  assert_eq!(check_distinct(0x1000, 0x1000), Err(Error::SameAddress));
  assert_eq!(check_distinct(0x1000, 0x2000), Ok(()));
  assert_eq!(prepare(0x1000, 0x1000, true, true, &[0x55], Bitness::X64).unwrap_err(), Error::SameAddress);
  // Same address wins over non-executable memory.
  assert_eq!(prepare(0x1000, 0x1000, false, false, &[0x55], Bitness::X64).unwrap_err(), Error::SameAddress);
}

#[test]
fn non_executable_is_refused() {
  assert_eq!(prepare(0x1000, 0x2000, false, true, &[0x55], Bitness::X64).unwrap_err(), Error::NotExecutable);
  assert_eq!(prepare(0x1000, 0x2000, true, false, &[0x55], Bitness::X64).unwrap_err(), Error::NotExecutable);
  // Executability is checked before the code is decoded.
  assert_eq!(prepare(0x1000, 0x2000, false, true, &[0x06], Bitness::X64).unwrap_err(), Error::NotExecutable);
}

#[test]
fn prepare_builds_the_code() {
  let arch = prepare(0x1000, 0x2000, true, true, &[0x55], Bitness::X64).unwrap();
  let thunks = arch.emitter().thunks();
  assert_eq!(thunks.len(), 8);
  assert_eq!(thunks[3], Thunk::Call(0x2000));
  assert_eq!(thunks[6], Thunk::Copy(vec![0x55]));
  assert_eq!(thunks[7], Thunk::Jmp(0x1001));
  assert_eq!(prepare(0x1000, 0x2000, true, true, &[0x06], Bitness::X64).unwrap_err(), Error::InvalidCode);
}

#[test]
fn hook_starts_disabled_and_toggles() {
  let mut hook = Hook::from_parts("code", 7u32);
  assert!(!hook.is_enabled());
  assert_eq!(hook.toggle_step(false), ToggleStep::Unchanged);
  assert_eq!(hook.toggle_step(true), ToggleStep::Patch);
  hook.set_enabled(true);
  assert!(hook.is_enabled());
  assert_eq!(hook.toggle_step(true), ToggleStep::Unchanged);
  assert_eq!(hook.toggle_step(false), ToggleStep::Patch);
  hook.set_enabled(false);
  assert!(!hook.is_enabled());
  assert_eq!(*hook.code(), "code");
}

#[test]
fn patcher_is_reachable_without_changing_state() {
  let mut hook = Hook::from_parts(0u8, vec![1u8, 2]);
  hook.patcher_mut().push(3);
  assert_eq!(*hook.patcher_mut(), vec![1, 2, 3]);
  assert!(!hook.is_enabled());
}

#[test]
fn raw_hook_reports_its_state() {
  let mut raw = RawHook::new(Hook::from_parts((), ()));
  assert!(!raw.is_enabled());
  raw.hook_mut().set_enabled(true);
  assert!(raw.is_enabled());
  assert!(raw.hook().is_enabled());
  raw.hook_mut().set_enabled(false);
  assert!(!raw.is_enabled());
}

#[test]
fn bitness_widths() {
  assert_eq!(Bitness::X86.bits(), 32);
  assert_eq!(Bitness::X64.bits(), 64);
}

#[test]
fn failed_requests_leave_the_state() {
  // enable succeeds, disable fails (nothing recorded), enable again: unchanged step
  let mut hook = Hook::from_parts((), ());
  assert_eq!(hook.toggle_step(true), ToggleStep::Patch);
  hook.set_enabled(true);
  assert_eq!(hook.toggle_step(false), ToggleStep::Patch);
  // the patch failed: nothing is recorded
  assert!(hook.is_enabled());
  assert_eq!(hook.toggle_step(true), ToggleStep::Unchanged);
  assert!(hook.is_enabled());
}
