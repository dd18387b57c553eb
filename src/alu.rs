//! The arithmetic and logic unit: every operation yields a 16-bit result and
//! the flags that describe it, computed afresh from its operands.
//!
//! Conventions fixed here:
//! - `parity` is set when the result holds an even number of one bits.
//! - `negative` is bit 15 of the result.
//! - Addition wraps modulo 65536 and sets both `carry_out` and `overflow` when
//!   the unsigned sum needs a seventeenth bit.
//! - Subtraction sets `carry_out` on a borrow, and `overflow` when the signed
//!   difference does not fit in 16 bits. Negation is subtraction from zero, so
//!   negating `0x8000` wraps to `0x8000` and sets `overflow`.
//! - Logic operations, logical shifts and rotations treat their operands as
//!   unsigned and never set `overflow`; an arithmetic left shift sets it when
//!   the signed operand times 2^n does not fit in 16 bits.
//! - Shift and rotate amounts are taken modulo 16, so that rotating by 16 is
//!   the identity; the rotations through the carry bit work on a 17-bit window
//!   and take their amount modulo 17 for the same reason.
use vstd::prelude::*;
use vstd::arithmetic::power2::{lemma2_to64, lemma_pow2_strictly_increases, pow2};
use vstd::bits::lemma_u32_shl_is_mul;

verus! {

/// The result of one operation of the unit, with its flags.
#[derive(Copy, Clone, Debug, PartialEq, Eq, Structural)]
pub struct AluOutputs {
    /// The 16-bit result.
    pub value: u16,
    /// A carry out of an addition, a borrow of a subtraction, or a one bit
    /// shifted or rotated out of the 16-bit window.
    pub carry_out: bool,
    /// Whether the result is zero.
    pub zero: bool,
    /// Whether bit 15 of the result is set.
    pub negative: bool,
    /// Whether the result is not the mathematically exact one (see the
    /// conventions of this module).
    pub overflow: bool,
    /// Whether the result holds an even number of one bits.
    pub parity: bool,
}

/// The number of one bits among the lowest `n` bits of `v`.
pub open spec fn ones(v: nat, n: nat) -> nat
    decreases n,
{
    if n == 0 {
        0
    } else {
        v % 2 + ones(v / 2, (n - 1) as nat)
    }
}

/// Whether `v` holds an even number of one bits.
pub open spec fn even_ones(v: u16) -> bool {
    ones(v as nat, 16) % 2 == 0
}

/// The two's complement reading of `v`.
pub open spec fn signed(v: u16) -> int {
    if v < 0x8000 {
        v as int
    } else {
        v as int - 0x10000
    }
}

/// Whether `x` lies in the range of a signed 16-bit integer.
pub open spec fn fits_signed(x: int) -> bool {
    -0x8000 <= x <= 0x7FFF
}

/// The outputs for `value`, with the flags that follow from the value itself.
pub open spec fn outputs(value: u16, carry_out: bool, overflow: bool) -> AluOutputs {
    AluOutputs {
        value,
        carry_out,
        zero: value == 0,
        negative: value >= 0x8000,
        overflow,
        parity: even_ones(value),
    }
}

impl AluOutputs {
    /// The flags that depend on the value alone agree with it.
    pub open spec fn consistent(self) -> bool {
        &&& self.zero == (self.value == 0)
        &&& self.negative == (self.value >= 0x8000)
        &&& self.parity == even_ones(self.value)
    }

    /// The outputs for `value`, computing the flags that follow from it.
    pub fn from_result(value: u16, carry_out: bool, overflow: bool) -> (r: AluOutputs)
        ensures
            r == outputs(value, carry_out, overflow),
    {
        let mut x: u16 = value;
        let mut count: u16 = 0;
        let mut i: u16 = 0;
        while i < 16
            invariant
                i <= 16,
                count <= i,
                count + ones(x as nat, (16 - i) as nat) == ones(value as nat, 16),
            decreases 16 - i,
        {
            count = count + x % 2;
            x = x / 2;
            i = i + 1;
        }
        AluOutputs {
            value,
            carry_out,
            zero: value == 0,
            negative: value >= 0x8000,
            overflow,
            parity: count % 2 == 0,
        }
    }
}

impl Default for AluOutputs {
    /// The outputs of passing zero through the unit.
    fn default() -> (r: AluOutputs)
        ensures
            r == outputs(0, false, false),
    {
        AluOutputs::from_result(0, false, false)
    }
}

/// `a + b + carry`, modulo 65536.
pub open spec fn add16_carry_result(a: u16, b: u16, carry: bool) -> AluOutputs {
    let sum = a + b + if carry { 1int } else { 0int };
    outputs((sum % 0x10000) as u16, sum > 0xFFFF, sum > 0xFFFF)
}

pub open spec fn add16_result(a: u16, b: u16) -> AluOutputs {
    add16_carry_result(a, b, false)
}

/// `a - b - borrow`, modulo 65536.
pub open spec fn sub16_borrow_result(a: u16, b: u16, borrow: bool) -> AluOutputs {
    let c = if borrow { 1int } else { 0int };
    let diff = a - b - c;
    outputs((diff % 0x10000) as u16, diff < 0, !fits_signed(signed(a) - signed(b) - c))
}

pub open spec fn sub16_result(a: u16, b: u16) -> AluOutputs {
    sub16_borrow_result(a, b, false)
}

/// Two's complement negation: subtraction from zero.
pub open spec fn neg16_result(a: u16) -> AluOutputs {
    sub16_result(0, a)
}

pub open spec fn inc16_result(a: u16) -> AluOutputs {
    add16_result(a, 1)
}

pub open spec fn pass16_result(a: u16) -> AluOutputs {
    outputs(a, false, false)
}

pub open spec fn and16_result(a: u16, b: u16) -> AluOutputs {
    outputs(a & b, false, false)
}

pub open spec fn or16_result(a: u16, b: u16) -> AluOutputs {
    outputs(a | b, false, false)
}

pub open spec fn xor16_result(a: u16, b: u16) -> AluOutputs {
    outputs(a ^ b, false, false)
}

pub open spec fn complement_result(a: u16) -> AluOutputs {
    outputs(!a, false, false)
}

/// A shift or rotate amount, reduced modulo 16.
pub open spec fn amount(b: u16) -> u16 {
    (b % 16) as u16
}

/// The arithmetic right shift of `a` by `n` bits: the sign bit is copied in.
pub open spec fn sign_extended_shr(a: u16, n: u16) -> u16 {
    if a >= 0x8000 {
        !((!a) >> n)
    } else {
        a >> n
    }
}

/// The arithmetic left shift: bit 15 stays, bits 0 to 14 move left. A carry
/// is a one bit lost off the top of those fifteen; the result overflows when
/// the signed operand times 2^n does not fit in 16 bits.
pub open spec fn shift16l_result(a: u16, b: u16) -> AluOutputs {
    let n = amount(b);
    let value = (a & 0x8000) | ((a << n) & 0x7FFF);
    outputs(
        value,
        ((value & 0x7FFF) >> n) != (a & 0x7FFF),
        !fits_signed(signed(a) * pow2(n as nat)),
    )
}

/// The arithmetic right shift: the sign bit is copied in. A carry is a one
/// bit lost off the bottom.
pub open spec fn shift16r_result(a: u16, b: u16) -> AluOutputs {
    let n = amount(b);
    outputs(sign_extended_shr(a, n), ((a >> n) << n) != a, false)
}

/// The logical left shift. A carry is a one bit lost off the top.
pub open spec fn ushift16l_result(a: u16, b: u16) -> AluOutputs {
    let n = amount(b);
    let value = a << n;
    outputs(value, (value >> n) != a, false)
}

/// The logical right shift. A carry is a one bit lost off the bottom.
pub open spec fn ushift16r_result(a: u16, b: u16) -> AluOutputs {
    let n = amount(b);
    let value = a >> n;
    outputs(value, (value << n) != a, false)
}

/// The left rotation. The carry is the last bit carried round, now bit 0.
pub open spec fn rot16l_result(a: u16, b: u16) -> AluOutputs {
    let n = amount(b);
    let value = if n == 0 {
        a
    } else {
        (a << n) | (a >> (16 - n) as u16)
    };
    outputs(value, n != 0 && (value & 1) == 1, false)
}

/// The right rotation. The carry is the last bit carried round, now bit 15.
pub open spec fn rot16r_result(a: u16, b: u16) -> AluOutputs {
    let n = amount(b);
    let value = if n == 0 {
        a
    } else {
        (a >> n) | (a << (16 - n) as u16)
    };
    outputs(value, n != 0 && value >= 0x8000, false)
}

/// The 17-bit window of a rotation through the carry: the carry above `a`.
pub open spec fn window(a: u16, carry: bool) -> u32 {
    if carry {
        (a as u32) | 0x10000
    } else {
        a as u32
    }
}

/// The left rotation of the 17-bit window by `b` modulo 17 bits. The new
/// carry is bit 16 of the rotated window, the value its low 16 bits.
pub open spec fn rot16l_carry_result(a: u16, b: u16, carry: bool) -> AluOutputs {
    let n = (b % 17) as u32;
    let w = window(a, carry);
    let r = if n == 0 {
        w
    } else {
        ((w << n) | (w >> (17 - n) as u32)) & 0x1FFFF
    };
    outputs(r as u16, r >= 0x10000, false)
}

/// The right rotation of the 17-bit window by `b` modulo 17 bits.
pub open spec fn rot16r_carry_result(a: u16, b: u16, carry: bool) -> AluOutputs {
    let n = (b % 17) as u32;
    let w = window(a, carry);
    let r = if n == 0 {
        w
    } else {
        ((w >> n) | (w << (17 - n) as u32)) & 0x1FFFF
    };
    outputs(r as u16, r >= 0x10000, false)
}

/// An arithmetic and logic unit. Each operation returns fresh outputs whose
/// flags agree with their value, and leaves the unit as it was.
pub trait Alu: Sized {
    /// Adds `a` and `b`.
    fn add16(&mut self, a: u16, b: u16) -> (r: AluOutputs)
        ensures
            r == add16_result(a, b),
            r.consistent(),
            *final(self) == *old(self),
    ;

    /// Adds `a`, `b` and the carry bit.
    fn add16_carry(&mut self, a: u16, b: u16, carry: bool) -> (r: AluOutputs)
        ensures
            r == add16_carry_result(a, b, carry),
            r.consistent(),
            *final(self) == *old(self),
    ;

    /// Subtracts `b` from `a`.
    fn sub16(&mut self, a: u16, b: u16) -> (r: AluOutputs)
        ensures
            r == sub16_result(a, b),
            r.consistent(),
            *final(self) == *old(self),
    ;

    /// Subtracts `b` and the borrow bit from `a`.
    fn sub16_borrow(&mut self, a: u16, b: u16, borrow: bool) -> (r: AluOutputs)
        ensures
            r == sub16_borrow_result(a, b, borrow),
            r.consistent(),
            *final(self) == *old(self),
    ;

    /// The two's complement of `a`.
    fn neg16(&mut self, a: u16) -> (r: AluOutputs)
        ensures
            r == neg16_result(a),
            r.consistent(),
            *final(self) == *old(self),
    ;

    /// Adds one to `a`.
    fn inc16(&mut self, a: u16) -> (r: AluOutputs)
        ensures
            r == inc16_result(a),
            r.consistent(),
            *final(self) == *old(self),
    ;

    /// Latches `a` through the flag logic unchanged.
    fn pass16(&mut self, a: u16) -> (r: AluOutputs)
        ensures
            r == pass16_result(a),
            r.consistent(),
            *final(self) == *old(self),
    ;

    /// Bitwise AND.
    fn and16(&mut self, a: u16, b: u16) -> (r: AluOutputs)
        ensures
            r == and16_result(a, b),
            r.consistent(),
            *final(self) == *old(self),
    ;

    /// Bitwise OR.
    fn or16(&mut self, a: u16, b: u16) -> (r: AluOutputs)
        ensures
            r == or16_result(a, b),
            r.consistent(),
            *final(self) == *old(self),
    ;

    /// Bitwise exclusive OR.
    fn xor16(&mut self, a: u16, b: u16) -> (r: AluOutputs)
        ensures
            r == xor16_result(a, b),
            r.consistent(),
            *final(self) == *old(self),
    ;

    /// Flips every bit of `a`.
    fn complement(&mut self, a: u16) -> (r: AluOutputs)
        ensures
            r == complement_result(a),
            r.consistent(),
            *final(self) == *old(self),
    ;

    /// Arithmetic left shift of `a` by `b` bits, keeping the sign bit.
    fn shift16l(&mut self, a: u16, b: u16) -> (r: AluOutputs)
        ensures
            r == shift16l_result(a, b),
            r.consistent(),
            *final(self) == *old(self),
    ;

    /// Arithmetic right shift of `a` by `b` bits, copying the sign bit in.
    fn shift16r(&mut self, a: u16, b: u16) -> (r: AluOutputs)
        ensures
            r == shift16r_result(a, b),
            r.consistent(),
            *final(self) == *old(self),
    ;

    /// Logical left shift of `a` by `b` bits.
    fn ushift16l(&mut self, a: u16, b: u16) -> (r: AluOutputs)
        ensures
            r == ushift16l_result(a, b),
            r.consistent(),
            *final(self) == *old(self),
    ;

    /// Logical right shift of `a` by `b` bits.
    fn ushift16r(&mut self, a: u16, b: u16) -> (r: AluOutputs)
        ensures
            r == ushift16r_result(a, b),
            r.consistent(),
            *final(self) == *old(self),
    ;

    /// Rotates `a` left by `b` bits.
    fn rot16l(&mut self, a: u16, b: u16) -> (r: AluOutputs)
        ensures
            r == rot16l_result(a, b),
            r.consistent(),
            *final(self) == *old(self),
    ;

    /// Rotates `a` right by `b` bits.
    fn rot16r(&mut self, a: u16, b: u16) -> (r: AluOutputs)
        ensures
            r == rot16r_result(a, b),
            r.consistent(),
            *final(self) == *old(self),
    ;

    /// Rotates `a` and the carry bit left by `b` bits.
    fn rot16l_carry(&mut self, a: u16, b: u16, carry: bool) -> (r: AluOutputs)
        ensures
            r == rot16l_carry_result(a, b, carry),
            r.consistent(),
            *final(self) == *old(self),
    ;

    /// Rotates `a` and the carry bit right by `b` bits.
    fn rot16r_carry(&mut self, a: u16, b: u16, carry: bool) -> (r: AluOutputs)
        ensures
            r == rot16r_carry_result(a, b, carry),
            r.consistent(),
            *final(self) == *old(self),
    ;
}

/// The unit of this machine.
#[derive(Copy, Clone, Debug, PartialEq, Eq, Structural)]
pub struct CJEmuAlu {}

/// The two's complement reading of `v`, widened.
fn signed_value(v: u16) -> (r: i32)
    ensures
        r == signed(v),
{
    if v < 0x8000 {
        v as i32
    } else {
        v as i32 - 0x10000
    }
}

impl Alu for CJEmuAlu {
    fn add16(&mut self, a: u16, b: u16) -> (r: AluOutputs) {
        self.add16_carry(a, b, false)
    }

    fn add16_carry(&mut self, a: u16, b: u16, carry: bool) -> (r: AluOutputs) {
        let sum: u32 = a as u32 + b as u32 + if carry {
            1u32
        } else {
            0u32
        };
        AluOutputs::from_result((sum % 0x10000) as u16, sum > 0xFFFF, sum > 0xFFFF)
    }

    fn sub16(&mut self, a: u16, b: u16) -> (r: AluOutputs) {
        self.sub16_borrow(a, b, false)
    }

    fn sub16_borrow(&mut self, a: u16, b: u16, borrow: bool) -> (r: AluOutputs) {
        let c: i32 = if borrow {
            1
        } else {
            0
        };
        let diff: i32 = a as i32 - b as i32 - c;
        let value: u16 = if diff < 0 {
            (diff + 0x10000) as u16
        } else {
            diff as u16
        };
        assert(value == (diff % 0x10000) as u16);
        let exact: i32 = signed_value(a) - signed_value(b) - c;
        AluOutputs::from_result(value, diff < 0, exact < -0x8000 || exact > 0x7FFF)
    }

    fn neg16(&mut self, a: u16) -> (r: AluOutputs) {
        self.sub16_borrow(0, a, false)
    }

    fn inc16(&mut self, a: u16) -> (r: AluOutputs) {
        self.add16_carry(a, 1, false)
    }

    fn pass16(&mut self, a: u16) -> (r: AluOutputs) {
        AluOutputs::from_result(a, false, false)
    }

    fn and16(&mut self, a: u16, b: u16) -> (r: AluOutputs) {
        AluOutputs::from_result(a & b, false, false)
    }

    fn or16(&mut self, a: u16, b: u16) -> (r: AluOutputs) {
        AluOutputs::from_result(a | b, false, false)
    }

    fn xor16(&mut self, a: u16, b: u16) -> (r: AluOutputs) {
        AluOutputs::from_result(a ^ b, false, false)
    }

    fn complement(&mut self, a: u16) -> (r: AluOutputs) {
        AluOutputs::from_result(!a, false, false)
    }

    fn shift16l(&mut self, a: u16, b: u16) -> (r: AluOutputs) {
        let n: u16 = b % 16;
        let value: u16 = (a & 0x8000) | ((a << n) & 0x7FFF);
        let carry_out = ((value & 0x7FFF) >> n) != (a & 0x7FFF);
        proof {
            lemma_pow2_strictly_increases(n as nat, 16);
            lemma2_to64();
            lemma_u32_shl_is_mul(1, n as u32);
        }
        let factor: u32 = 1u32 << (n as u32);
        let s: i64 = signed_value(a) as i64;
        assert(-0x8000 * 0x10000 <= s * factor <= 0x8000 * 0x10000) by (nonlinear_arith)
            requires
                -0x8000 <= s <= 0x7FFF,
                1 <= factor <= 0x10000,
        ;
        let exact: i64 = s * factor as i64;
        AluOutputs::from_result(value, carry_out, exact < -0x8000 || exact > 0x7FFF)
    }

    fn shift16r(&mut self, a: u16, b: u16) -> (r: AluOutputs) {
        let n: u16 = b % 16;
        let value: u16 = if a >= 0x8000 {
            !((!a) >> n)
        } else {
            a >> n
        };
        AluOutputs::from_result(value, ((a >> n) << n) != a, false)
    }

    fn ushift16l(&mut self, a: u16, b: u16) -> (r: AluOutputs) {
        let n: u16 = b % 16;
        let value: u16 = a << n;
        AluOutputs::from_result(value, (value >> n) != a, false)
    }

    fn ushift16r(&mut self, a: u16, b: u16) -> (r: AluOutputs) {
        let n: u16 = b % 16;
        let value: u16 = a >> n;
        AluOutputs::from_result(value, (value << n) != a, false)
    }

    fn rot16l(&mut self, a: u16, b: u16) -> (r: AluOutputs) {
        let n: u16 = b % 16;
        let value: u16 = if n == 0 {
            a
        } else {
            (a << n) | (a >> (16 - n))
        };
        AluOutputs::from_result(value, n != 0 && (value & 1) == 1, false)
    }

    fn rot16r(&mut self, a: u16, b: u16) -> (r: AluOutputs) {
        let n: u16 = b % 16;
        let value: u16 = if n == 0 {
            a
        } else {
            (a >> n) | (a << (16 - n))
        };
        AluOutputs::from_result(value, n != 0 && value >= 0x8000, false)
    }

    fn rot16l_carry(&mut self, a: u16, b: u16, carry: bool) -> (r: AluOutputs) {
        let n: u32 = (b % 17) as u32;
        let w: u32 = if carry {
            (a as u32) | 0x10000
        } else {
            a as u32
        };
        let r: u32 = if n == 0 {
            w
        } else {
            ((w << n) | (w >> (17 - n))) & 0x1FFFF
        };
        AluOutputs::from_result(r as u16, r >= 0x10000, false)
    }

    fn rot16r_carry(&mut self, a: u16, b: u16, carry: bool) -> (r: AluOutputs) {
        let n: u32 = (b % 17) as u32;
        let w: u32 = if carry {
            (a as u32) | 0x10000
        } else {
            a as u32
        };
        let r: u32 = if n == 0 {
            w
        } else {
            ((w >> n) | (w << (17 - n))) & 0x1FFFF
        };
        AluOutputs::from_result(r as u16, r >= 0x10000, false)
    }
}

/// Addition does not depend on the order of its operands.
pub proof fn lemma_add16_commutative(a: u16, b: u16)
    ensures
        add16_result(a, b) == add16_result(b, a),
{
}

/// Addition wraps modulo 65536, and overflows exactly when the unsigned sum
/// exceeds 65535.
pub proof fn lemma_add16_wraps(a: u16, b: u16)
    ensures
        add16_result(a, b).value == (a + b) % 0x10000,
        add16_result(a, b).overflow <==> a + b > 0xFFFF,
{
}

/// Complementing twice gives the operand back.
pub proof fn lemma_complement_involutive(a: u16)
    ensures
        complement_result(complement_result(a).value).value == a,
{
    assert(!(!a) == a) by (bit_vector);
}

/// A rotation by the full width of 16 bits is the identity.
pub proof fn lemma_full_rotation(a: u16)
    ensures
        rot16l_result(a, 16).value == a,
        rot16r_result(a, 16).value == a,
{
}

/// Rotation amounts count modulo 16.
pub proof fn lemma_rotation_period(a: u16, b: u16)
    requires
        b + 16 <= 0xFFFF,
    ensures
        rot16l_result(a, (b + 16) as u16) == rot16l_result(a, b),
        rot16r_result(a, (b + 16) as u16) == rot16r_result(a, b),
{
}

/// A right rotation undoes a left rotation by the same amount.
pub proof fn lemma_rotations_invert(a: u16, b: u16)
    ensures
        rot16r_result(rot16l_result(a, b).value, b).value == a,
        rot16l_result(rot16r_result(a, b).value, b).value == a,
{
    let n = amount(b);
    if n != 0 {
        assert(((((a << n) | (a >> (16 - n) as u16)) >> n) | (((a << n) | (a >> (16
            - n) as u16)) << (16 - n) as u16)) == a) by (bit_vector)
            requires
                0 < n < 16,
        ;
        assert(((((a >> n) | (a << (16 - n) as u16)) << n) | (((a >> n) | (a << (16
            - n) as u16)) >> (16 - n) as u16)) == a) by (bit_vector)
            requires
                0 < n < 16,
        ;
    }
}

/// An arithmetic left shift that does not overflow multiplies the signed
/// operand by 2^n.
pub proof fn lemma_shift16l_exact(a: u16, b: u16)
    requires
        !shift16l_result(a, b).overflow,
    ensures
        signed(shift16l_result(a, b).value) == signed(a) * pow2(amount(b) as nat),
{
    let n = amount(b);
    let value = shift16l_result(a, b).value;
    lemma_pow2_strictly_increases(n as nat, 16);
    lemma2_to64();
    lemma_u32_shl_is_mul(1, n as u32);
    let k: u32 = 1u32 << (n as u32);
    assert(k == pow2(n as nat));
    if a < 0x8000 {
        assert((a as u32) * k <= 0x7FFF);
        assert(((a & 0x8000) | ((a << n) & 0x7FFF)) as u32 == (a as u32) * k) by (bit_vector)
            requires
                a < 0x8000,
                (a as u32) * k <= 0x7FFF,
                k == 1u32 << (n as u32),
                n < 16,
        ;
    } else {
        let c: u32 = (0x10000 - a) as u32;
        assert(c * k <= 0x8000) by (nonlinear_arith)
            requires
                c == 0x10000 - a,
                (a - 0x10000) * k >= -0x8000,
        ;
        assert(((a & 0x8000) | ((a << n) & 0x7FFF)) as u32 == 0x10000 - c * k) by (bit_vector)
            requires
                a >= 0x8000,
                c == 0x10000 - a,
                c * k <= 0x8000,
                k == 1u32 << (n as u32),
                n < 16,
        ;
        assert((a - 0x10000) * k == -(c * k)) by (nonlinear_arith)
            requires
                c == 0x10000 - a,
        ;
    }
}

} // verus!
