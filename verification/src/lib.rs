//! Function hooks for x86 and x86-64.
//!
//! The library decides how a hook at an arbitrary instruction is built: the
//! instruction at the target is decoded, relocated if it refers to code or
//! data relative to its own address, and surrounded by a stack-aligning call
//! of the hook and a jump back to the next instruction of the target. It also
//! keeps the state of each hook and decides what enabling or disabling it
//! requires.

pub mod decode;
pub mod error;
pub mod hook;
pub mod hook_arch;
pub mod relocate;
pub mod stack;
pub mod thunk;

pub use decode::{Bitness, DecodedInstruction, MAX_INSTRUCTION_SIZE};
pub use error::Error;
pub use hook::{Hook, RawHook, ToggleStep};
pub use hook_arch::HookArch;
pub use relocate::{is_within_range, RipRelativeCode};
pub use thunk::{CodeEmitter, Register, Thunk};
