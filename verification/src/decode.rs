use iced_x86::{Decoder, DecoderOptions};
use vstd::prelude::*;

verus! {

/// The longest instruction that x86 allows, in bytes.
pub const MAX_INSTRUCTION_SIZE: usize = 15;

/// The processor mode the code runs in.
#[derive(Debug, Clone, Copy, PartialEq, Eq, Structural)]
pub enum Bitness {
    /// 32-bit protected mode.
    X86,
    /// 64-bit long mode.
    X64,
}

impl Bitness {
    pub open spec fn spec_bits(self) -> u32 {
        match self {
            Bitness::X86 => 32,
            Bitness::X64 => 64,
        }
    }

    /// The width of an address in this mode, in bits.
    pub fn bits(&self) -> (r: u32)
        ensures
            r == self.spec_bits(),
    {
        match self {
            Bitness::X86 => 32,
            Bitness::X64 => 64,
        }
    }
}

// Operand kinds, numbered as the decoder numbers them.
pub const OP_KIND_NEAR_BRANCH16: u8 = 1;
pub const OP_KIND_NEAR_BRANCH32: u8 = 2;
pub const OP_KIND_NEAR_BRANCH64: u8 = 3;
pub const OP_KIND_IMMEDIATE8: u8 = 6;
pub const OP_KIND_IMMEDIATE8_2ND: u8 = 7;
pub const OP_KIND_IMMEDIATE16: u8 = 8;
pub const OP_KIND_IMMEDIATE32: u8 = 9;
pub const OP_KIND_IMMEDIATE64: u8 = 10;
pub const OP_KIND_IMMEDIATE8TO16: u8 = 11;
pub const OP_KIND_IMMEDIATE8TO32: u8 = 12;
pub const OP_KIND_IMMEDIATE8TO64: u8 = 13;
pub const OP_KIND_IMMEDIATE32TO64: u8 = 14;

/// What the decoder reports of the first instruction in a byte sequence.
#[derive(Debug, Clone, Copy, PartialEq, Eq)]
pub struct DecodedInstruction {
    /// The length of the instruction in bytes.
    pub len: usize,
    /// Whether the bytes do not encode a valid instruction.
    pub is_invalid: bool,
    /// The number of operands, at most five.
    pub op_count: u32,
    /// The kind of each operand (only the first `op_count` are meaningful).
    pub op_kinds: [u8; 5],
    /// Whether a memory operand is addressed relative to the instruction pointer.
    pub is_ip_rel_memory_operand: bool,
    /// The absolute address that such a memory operand refers to.
    pub ip_rel_memory_address: u64,
    /// The destination of a near branch (zero when there is none).
    pub near_branch_target: u64,
    /// Whether it is a near `call`.
    pub is_call_near: bool,
    /// Whether it is a short or near unconditional `jmp`.
    pub is_jmp_short_or_near: bool,
    /// Whether it is `loop`.
    pub is_loop: bool,
    /// Whether it is `loope` or `loopne`.
    pub is_loopcc: bool,
    /// Whether it is `jcxz`, `jecxz` or `jrcxz`.
    pub is_jcx_short: bool,
}

/// The first instruction that the decoder finds in `code`, read in a mode of
/// `bitness` bits, the instruction standing at address `ip`.
pub uninterp spec fn x86_decode(bitness: u32, code: Seq<u8>, ip: u64) -> DecodedInstruction;

/// The `k` bytes (1, 2 or 4) of `code` from position `start`, read as a
/// little-endian two's-complement number.
pub open spec fn sign_extend_le(code: Seq<u8>, start: int, k: int) -> int {
    let v = if k == 1 {
        code[start] as int
    } else if k == 2 {
        code[start] + 0x100 * code[start + 1]
    } else {
        code[start] + 0x100 * code[start + 1] + 0x1_0000 * code[start + 2] + 0x100_0000 * code[start
            + 3]
    };
    let half = if k == 1 {
        0x80int
    } else if k == 2 {
        0x8000int
    } else {
        0x8000_0000int
    };
    if v >= half {
        v - 2 * half
    } else {
        v
    }
}

/// The number of addresses of 64-bit mode.
pub open spec fn address_space64() -> int {
    0x1_0000_0000_0000_0000
}

/// Where a branch of `len` bytes at `ip` leads when its last `k` bytes are
/// its displacement: the address of the next instruction plus the
/// sign-extended displacement, in 64-bit address arithmetic.
pub open spec fn relative_destination(ip: u64, len: usize, code: Seq<u8>, k: int) -> int {
    (ip + len + sign_extend_le(code, len - k, k)) % address_space64()
}

/// Whether `destination` is where a branch of `len` bytes at `ip` leads with
/// a displacement of 1, 2 or 4 bytes that ends it.
pub open spec fn is_relative_destination(destination: int, ip: u64, len: usize, code: Seq<u8>) -> bool {
    ||| len >= 1 && destination == relative_destination(ip, len, code, 1)
    ||| len >= 2 && destination == relative_destination(ip, len, code, 2)
    ||| len >= 4 && destination == relative_destination(ip, len, code, 4)
}

/// Decodes the first instruction of the first `len` bytes of `padded` with
/// iced-x86's `Decoder::with_ip` and `Decoder::decode`, and copies out what
/// the hook builder reads. The 15 bytes that follow those are never read:
/// they only keep the decoded bytes from ending within 15 bytes of the top of
/// the address space, where the decoder's constructor would panic.
///
/// Claimed of iced-x86: the result is a function of the decoded bytes, the
/// bitness and the address; it has at most five operands; a valid instruction
/// has between 1 and 15 bytes, all of them among the decoded ones, and no
/// byte after the first 15 is ever read. In 64-bit mode (decoded without the
/// AMD option), a first operand that is a near branch is `NearBranch64`, and
/// its destination is the address after the instruction plus the
/// sign-extended displacement that ends the instruction (1, 2 or 4 bytes).
#[verifier::external_body]
pub(crate) fn decode(bitness: u32, padded: &[u8], len: usize, ip: u64) -> (r: DecodedInstruction)
    requires
        bitness == 16 || bitness == 32 || bitness == 64,
        len + MAX_INSTRUCTION_SIZE <= padded.len(),
    ensures
        r == x86_decode(bitness, padded@.take(len as int), ip),
        len >= MAX_INSTRUCTION_SIZE ==> r == x86_decode(bitness, padded@.take(15), ip),
        r.op_count <= 5,
        !r.is_invalid ==> 1 <= r.len <= MAX_INSTRUCTION_SIZE && r.len <= len,
        bitness == 64 && !r.is_invalid && r.has_near_branch() ==> {
            &&& r.op_kinds@[0] == OP_KIND_NEAR_BRANCH64
            &&& is_relative_destination(r.near_branch_target as int, ip, r.len, padded@)
        },
{
    let i = Decoder::with_ip(bitness, &padded[..len], ip, DecoderOptions::NONE).decode();
    DecodedInstruction {
        len: i.len(), is_invalid: i.is_invalid(), op_count: i.op_count(),
        op_kinds: [i.op_kind(0) as u8, i.op_kind(1) as u8, i.op_kind(2) as u8, i.op_kind(3) as u8, i.op_kind(4) as u8],
        is_ip_rel_memory_operand: i.is_ip_rel_memory_operand(),
        ip_rel_memory_address: i.ip_rel_memory_address(),
        near_branch_target: i.near_branch_target(),
        is_call_near: i.is_call_near(), is_jmp_short_or_near: i.is_jmp_short_or_near(),
        is_loop: i.is_loop(), is_loopcc: i.is_loopcc(), is_jcx_short: i.is_jcx_short(),
    }
}

/// The size of the immediate that an operand of kind `kind` carries, if it is one.
pub open spec fn kind_immediate_size(kind: u8) -> Option<usize> {
    if kind == OP_KIND_IMMEDIATE8 || kind == OP_KIND_IMMEDIATE8_2ND || kind == OP_KIND_IMMEDIATE8TO16
        || kind == OP_KIND_IMMEDIATE8TO32 || kind == OP_KIND_IMMEDIATE8TO64 {
        Some(1usize)
    } else if kind == OP_KIND_IMMEDIATE16 {
        Some(2usize)
    } else if kind == OP_KIND_IMMEDIATE32 || kind == OP_KIND_IMMEDIATE32TO64 {
        Some(4usize)
    } else if kind == OP_KIND_IMMEDIATE64 {
        Some(8usize)
    } else {
        None
    }
}

/// Executable form of [`kind_immediate_size`].
pub fn immediate_size_of_kind(kind: u8) -> (r: Option<usize>)
    ensures
        r == kind_immediate_size(kind),
{
    if kind == OP_KIND_IMMEDIATE8 || kind == OP_KIND_IMMEDIATE8_2ND || kind == OP_KIND_IMMEDIATE8TO16
        || kind == OP_KIND_IMMEDIATE8TO32 || kind == OP_KIND_IMMEDIATE8TO64 {
        Some(1)
    } else if kind == OP_KIND_IMMEDIATE16 {
        Some(2)
    } else if kind == OP_KIND_IMMEDIATE32 || kind == OP_KIND_IMMEDIATE32TO64 {
        Some(4)
    } else if kind == OP_KIND_IMMEDIATE64 {
        Some(8)
    } else {
        None
    }
}

/// What immediates take in an encoding: a sign-extended immediate is
/// encoded as its source (the 8-bit ones in as many bytes as `Immediate8`,
/// `Immediate32to64` in as many as `Immediate32`), is narrower than what it
/// is extended to, and the plain immediates double in size from one byte
/// for 8 bits to eight bytes for 64; an operand of any other kind carries none.
pub proof fn lemma_immediate_kind_sizes(kind: u8)
    ensures
        kind_immediate_size(OP_KIND_IMMEDIATE8) == Some(1usize),
        kind_immediate_size(OP_KIND_IMMEDIATE8_2ND) == kind_immediate_size(OP_KIND_IMMEDIATE8),
        kind_immediate_size(OP_KIND_IMMEDIATE8TO16) == kind_immediate_size(OP_KIND_IMMEDIATE8),
        kind_immediate_size(OP_KIND_IMMEDIATE8TO32) == kind_immediate_size(OP_KIND_IMMEDIATE8),
        kind_immediate_size(OP_KIND_IMMEDIATE8TO64) == kind_immediate_size(OP_KIND_IMMEDIATE8),
        kind_immediate_size(OP_KIND_IMMEDIATE32TO64) == kind_immediate_size(OP_KIND_IMMEDIATE32),
        kind_immediate_size(OP_KIND_IMMEDIATE16)->0 == 2 * kind_immediate_size(OP_KIND_IMMEDIATE8)->0,
        kind_immediate_size(OP_KIND_IMMEDIATE32)->0 == 2 * kind_immediate_size(OP_KIND_IMMEDIATE16)->0,
        kind_immediate_size(OP_KIND_IMMEDIATE64)->0 == 2 * kind_immediate_size(OP_KIND_IMMEDIATE32)->0,
        8 * kind_immediate_size(OP_KIND_IMMEDIATE8TO16)->0 < 16,
        8 * kind_immediate_size(OP_KIND_IMMEDIATE8TO32)->0 < 32,
        8 * kind_immediate_size(OP_KIND_IMMEDIATE8TO64)->0 < 64,
        8 * kind_immediate_size(OP_KIND_IMMEDIATE32TO64)->0 < 64,
        (kind_immediate_size(kind) is Some) == (OP_KIND_IMMEDIATE8 <= kind <= OP_KIND_IMMEDIATE32TO64),
{
}

impl DecodedInstruction {
    /// The number of operands whose kinds are recorded.
    pub open spec fn operand_count(self) -> int {
        if self.op_count <= 5 { self.op_count as int } else { 5 }
    }

    /// The size of the first immediate operand at position `i` or later, or
    /// zero when no operand from there on is an immediate.
    pub open spec fn immediate_size_from(self, i: int) -> usize
        decreases 5 - i,
    {
        if i < 0 || i >= self.operand_count() {
            0
        } else {
            match kind_immediate_size(self.op_kinds@[i]) {
                Some(size) => size,
                None => self.immediate_size_from(i + 1),
            }
        }
    }

    /// The size of the instruction's first immediate operand, zero when it has none.
    pub open spec fn spec_immediate_size(self) -> usize {
        self.immediate_size_from(0)
    }

    /// The absolute address of an operand addressed relative to the instruction pointer.
    pub open spec fn spec_rip_operand_target(self) -> Option<u64> {
        if self.is_ip_rel_memory_operand {
            Some(self.ip_rel_memory_address)
        } else {
            None
        }
    }

    /// Whether the first operand is a near branch.
    pub open spec fn has_near_branch(self) -> bool {
        self.operand_count() > 0 && {
            let k = self.op_kinds@[0];
            k == OP_KIND_NEAR_BRANCH16 || k == OP_KIND_NEAR_BRANCH32 || k == OP_KIND_NEAR_BRANCH64
        }
    }

    /// The destination of a branch relative to the instruction pointer.
    pub open spec fn spec_relative_branch_target(self) -> Option<u64> {
        if self.has_near_branch() {
            Some(self.near_branch_target)
        } else {
            None
        }
    }

    /// Whether the instruction is one of the loop family (`loop`, `loopcc`, `jcxz`).
    pub open spec fn spec_is_loop(self) -> bool {
        self.is_loop || self.is_loopcc || self.is_jcx_short
    }

    /// See [`Self::spec_immediate_size`].
    pub fn immediate_size(&self) -> (r: usize)
        ensures
            r == self.spec_immediate_size(),
            r <= 8,
    {
        let count: usize = if self.op_count <= 5 { self.op_count as usize } else { 5 };
        let mut i: usize = 0;
        while i < count
            invariant
                count == self.operand_count(),
                0 <= i <= count,
                self.immediate_size_from(0) == self.immediate_size_from(i as int),
            decreases count - i,
        {
            match immediate_size_of_kind(self.op_kinds[i]) {
                Some(size) => {
                    return size;
                },
                None => {},
            }
            i = i + 1;
        }
        0
    }

    /// See [`Self::spec_rip_operand_target`].
    pub fn rip_operand_target(&self) -> (r: Option<u64>)
        ensures
            r == self.spec_rip_operand_target(),
    {
        if self.is_ip_rel_memory_operand {
            Some(self.ip_rel_memory_address)
        } else {
            None
        }
    }

    /// See [`Self::spec_relative_branch_target`].
    pub fn relative_branch_target(&self) -> (r: Option<u64>)
        ensures
            r == self.spec_relative_branch_target(),
    {
        if self.op_count > 0 {
            let k = self.op_kinds[0];
            if k == OP_KIND_NEAR_BRANCH16 || k == OP_KIND_NEAR_BRANCH32 || k == OP_KIND_NEAR_BRANCH64 {
                return Some(self.near_branch_target);
            }
        }
        None
    }

    /// See [`Self::spec_is_loop`].
    pub fn is_any_loop(&self) -> (r: bool)
        ensures
            r == self.spec_is_loop(),
    {
        self.is_loop || self.is_loopcc || self.is_jcx_short
    }
}

} // verus!
