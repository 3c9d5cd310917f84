use vstd::prelude::*;

verus! {

/// Whether a displacement fits a signed 32-bit relative operand.
pub open spec fn within_range(displacement: int) -> bool {
    -0x8000_0000 <= displacement < 0x8000_0000
}

/// Whether `displacement` fits a signed 32-bit relative operand.
pub fn is_within_range(displacement: isize) -> (r: bool)
    ensures
        r == within_range(displacement as int),
{
    let d = displacement as i64;
    -0x8000_0000 <= d && d < 0x8000_0000
}


/// `u`, read as a signed address-sized integer.
pub open spec fn as_signed(u: usize) -> int {
    if u <= isize::MAX {
        u as int
    } else {
        u - (usize::MAX + 1)
    }
}

/// The displacement, in address-sized arithmetic, from the end of `len`
/// bytes placed at `offset` to `target`.
pub open spec fn relocated_displacement(target: usize, offset: usize, len: usize) -> usize {
    vstd::wrapping::usize_specs::wrapping_sub(
        vstd::wrapping::usize_specs::wrapping_sub(target, offset),
        len,
    )
}

/// The four little-endian bytes of `v`, which lies in `0..2^32`.
pub open spec fn le_u32(v: int) -> Seq<u8> {
    seq![
        (v % 256) as u8,
        ((v / 0x100) % 256) as u8,
        ((v / 0x1_0000) % 256) as u8,
        ((v / 0x100_0000) % 256) as u8,
    ]
}

/// The unsigned little-endian 32-bit number at position `i` of `s`.
pub open spec fn read_le_u32(s: Seq<u8>, i: int) -> int {
    s[i] + 0x100 * s[i + 1] + 0x1_0000 * s[i + 2] + 0x100_0000 * s[i + 3]
}

/// A 32-bit number read as two's complement.
pub open spec fn sign_extend32(v: int) -> int {
    if v < 0x8000_0000 {
        v
    } else {
        v - 0x1_0000_0000
    }
}

/// An instruction with a 32-bit operand relative to the instruction pointer,
/// and the absolute address that operand refers to.
#[derive(Debug, PartialEq, Eq)]
pub struct RipRelativeCode {
    bytes: Vec<u8>,
    target: usize,
    immediate_size: usize,
}

/// The mathematical content of a [`RipRelativeCode`].
pub ghost struct RipRelativeSpec {
    /// The instruction's bytes.
    pub bytes: Seq<u8>,
    /// The absolute address its relative operand refers to.
    pub target: usize,
    /// The size of the immediate that follows the displacement.
    pub immediate_size: usize,
}

impl View for RipRelativeCode {
    type V = RipRelativeSpec;

    closed spec fn view(&self) -> RipRelativeSpec {
        RipRelativeSpec {
            bytes: self.bytes@,
            target: self.target,
            immediate_size: self.immediate_size,
        }
    }
}

impl RipRelativeSpec {
    /// Where the 32-bit displacement starts: it is followed only by the immediate.
    pub open spec fn displacement_index(self) -> int {
        self.bytes.len() - 4 - self.immediate_size
    }

    /// The signed displacement the instruction needs when placed at `offset`.
    pub open spec fn displacement_at(self, offset: usize) -> int {
        as_signed(relocated_displacement(self.target, offset, self.bytes.len() as usize))
    }

    /// Whether the instruction can be placed at `offset`: it has room for a
    /// displacement, and the target is within reach of it.
    pub open spec fn relocatable(self, offset: usize) -> bool {
        &&& 4 + self.immediate_size <= self.bytes.len()
        &&& within_range(self.displacement_at(offset))
    }

    /// The instruction's bytes when placed at `offset`: the displacement is
    /// replaced, everything else is kept.
    pub open spec fn relocated(self, offset: usize) -> Seq<u8> {
        let i = self.displacement_index();
        self.bytes.take(i) + le_u32(self.displacement_at(offset) % 0x1_0000_0000) + self.bytes.skip(
            i + 4,
        )
    }
}

impl RipRelativeCode {
    /// An instruction of `bytes` whose relative operand refers to `target`,
    /// followed by an immediate of `immediate_size` bytes.
    pub fn new(bytes: Vec<u8>, target: usize, immediate_size: usize) -> (r: RipRelativeCode)
        ensures
            r@ == (RipRelativeSpec { bytes: bytes@, target, immediate_size }),
    {
        RipRelativeCode { bytes, target, immediate_size }
    }

    /// The length of the instruction in bytes.
    pub fn len(&self) -> (r: usize)
        ensures
            r == self@.bytes.len(),
    {
        self.bytes.len()
    }

    /// Whether the instruction can be placed at `offset`.
    pub fn is_relocatable(&self, offset: usize) -> (r: bool)
        ensures
            r == self@.relocatable(offset),
    {
        let len = self.bytes.len();
        if self.immediate_size > len || len - self.immediate_size < 4 {
            return false;
        }
        let adjusted = self.target.wrapping_sub(offset).wrapping_sub(len);
        adjusted < 0x8000_0000 || adjusted >= usize::MAX - 0x7FFF_FFFF
    }

    /// The instruction's bytes when placed at `offset`.
    pub fn generate(&self, offset: usize) -> (r: Vec<u8>)
        requires
            self@.relocatable(offset),
        ensures
            r@ == self@.relocated(offset),
    {
        let len = self.bytes.len();
        let index = len - 4 - self.immediate_size;
        let adjusted = self.target.wrapping_sub(offset).wrapping_sub(len);
        // The adjusted displacement modulo 2^32.
        let value: usize = if adjusted < 0x8000_0000 {
            adjusted
        } else {
            adjusted - (usize::MAX - 0xFFFF_FFFF)
        };
        assert(value == self@.displacement_at(offset) % 0x1_0000_0000);
        let mut bytes = self.bytes.clone();
        bytes.set(index, (value % 256) as u8);
        bytes.set(index + 1, ((value / 0x100) % 256) as u8);
        bytes.set(index + 2, ((value / 0x1_0000) % 256) as u8);
        bytes.set(index + 3, ((value / 0x100_0000) % 256) as u8);
        assert(bytes@ =~= self@.relocated(offset));
        bytes
    }
}


/// A copy placed at `offset` still refers to the same absolute address: the
/// processor adds the sign-extended displacement written into the copy to
/// the address of the copy's end, in address-sized arithmetic, and obtains
/// the target it had.
pub proof fn lemma_relocation_keeps_target(code: RipRelativeSpec, offset: usize)
    requires
        code.relocatable(offset),
        code.bytes.len() <= usize::MAX,
    ensures
        ({
            let out = code.relocated(offset);
            let next = vstd::wrapping::usize_specs::wrapping_add(offset, code.bytes.len() as usize);
            let disp = sign_extend32(read_le_u32(out, code.displacement_index()));
            &&& within_range(disp)
            &&& vstd::wrapping::usize_specs::wrapping_add_signed(next, disp as isize) == code.target
        }),
{
    let out = code.relocated(offset);
    let i = code.displacement_index();
    let v = code.displacement_at(offset) % 0x1_0000_0000;
    assert(out[i] == (v % 256) as u8);
    assert(out[i + 1] == ((v / 0x100) % 256) as u8);
    assert(out[i + 2] == ((v / 0x1_0000) % 256) as u8);
    assert(out[i + 3] == ((v / 0x100_0000) % 256) as u8);
    assert(read_le_u32(out, i) == v);
    assert(sign_extend32(v) == code.displacement_at(offset));
}

/// Placing the instruction changes nothing but the four displacement bytes.
pub proof fn lemma_relocation_changes_only_displacement(code: RipRelativeSpec, offset: usize)
    requires
        code.relocatable(offset),
    ensures
        code.relocated(offset).len() == code.bytes.len(),
        forall|j: int|
            0 <= j < code.bytes.len() && !(code.displacement_index() <= j < code.displacement_index() + 4)
                ==> #[trigger] code.relocated(offset)[j] == code.bytes[j],
{
    let i = code.displacement_index();
    assert forall|j: int|
        0 <= j < code.bytes.len() && !(i <= j < i + 4) implies #[trigger] code.relocated(offset)[j]
        == code.bytes[j] by {
        if j >= i + 4 {
            assert(code.relocated(offset)[j] == code.bytes.skip(i + 4)[j - (i + 4)]);
        }
    }
}


/// The four bytes at position `i` of `s`, read as a little-endian number and
/// written back, are the same bytes.
proof fn lemma_le_u32_roundtrip(s: Seq<u8>, i: int)
    requires
        0 <= i,
        i + 4 <= s.len(),
    ensures
        0 <= read_le_u32(s, i) < 0x1_0000_0000,
        le_u32(read_le_u32(s, i)) == s.subrange(i, i + 4),
{
    let (b0, b1, b2, b3) = (s[i] as int, s[i + 1] as int, s[i + 2] as int, s[i + 3] as int);
    let v = read_le_u32(s, i);
    assert(v % 256 == b0 && (v / 0x100) % 256 == b1 && (v / 0x1_0000) % 256 == b2 && (v / 0x100_0000)
        % 256 == b3) by (nonlinear_arith)
        requires
            v == b0 + 0x100 * b1 + 0x1_0000 * b2 + 0x100_0000 * b3,
            0 <= b0 < 256,
            0 <= b1 < 256,
            0 <= b2 < 256,
            0 <= b3 < 256,
    ;
    assert(le_u32(v) =~= s.subrange(i, i + 4));
}

/// An instruction whose displacement already reaches its target from where
/// it stands is left as it is when placed there again.
pub proof fn lemma_relocation_in_place_is_identity(code: RipRelativeSpec, ip: usize)
    requires
        4 + code.immediate_size <= code.bytes.len() <= usize::MAX,
        vstd::wrapping::usize_specs::wrapping_add_signed(
            vstd::wrapping::usize_specs::wrapping_add(ip, code.bytes.len() as usize),
            sign_extend32(read_le_u32(code.bytes, code.displacement_index())) as isize,
        ) == code.target,
    ensures
        code.relocatable(ip),
        code.relocated(ip) == code.bytes,
{
    let i = code.displacement_index();
    lemma_le_u32_roundtrip(code.bytes, i);
    let v = read_le_u32(code.bytes, i);
    assert(code.displacement_at(ip) == sign_extend32(v));
    assert(code.displacement_at(ip) % 0x1_0000_0000 == v);
    assert(code.relocated(ip) =~= code.bytes);
}

} // verus!
