//! Integer arithmetic of the base ISA and of the M extension.
use vstd::prelude::*;
use crate::instruction::{AluOp, AluWOp, BranchOp};
use crate::semantics::{alu_spec, alu_w_low, alu_w_spec, branch_taken, trunc_div, trunc_rem};

verus! {

/// The product of two 64-bit operands fits in 128 bits.
proof fn lemma_product_bounds(a: i64, b: i64)
    ensures
        i128::MIN <= a * b <= i128::MAX,
        i128::MIN <= a * (b as u64) <= i128::MAX,
        (a as u64) * (b as u64) <= u128::MAX,
{
    let x = a as int;
    let y = b as int;
    let u = b as u64 as int;
    let v = a as u64 as int;
    assert(-0x8000_0000_0000_0000 <= x < 0x8000_0000_0000_0000);
    assert(x * y <= 0x4000_0000_0000_0000_0000_0000_0000_0000) by (nonlinear_arith)
        requires
            -0x8000_0000_0000_0000 <= x < 0x8000_0000_0000_0000,
            -0x8000_0000_0000_0000 <= y < 0x8000_0000_0000_0000,
    ;
    assert(x * y >= -0x4000_0000_0000_0000_0000_0000_0000_0000) by (nonlinear_arith)
        requires
            -0x8000_0000_0000_0000 <= x < 0x8000_0000_0000_0000,
            -0x8000_0000_0000_0000 <= y < 0x8000_0000_0000_0000,
    ;
    assert(-0x8000_0000_0000_0000_0000_0000_0000_0000 <= x * u <= 0x7fff_ffff_ffff_ffff_ffff_ffff_ffff_ffff)
        by (nonlinear_arith)
        requires
            -0x8000_0000_0000_0000 <= x < 0x8000_0000_0000_0000,
            0 <= u < 0x1_0000_0000_0000_0000,
    ;
    assert(v * u <= 0xffff_ffff_ffff_ffff_ffff_ffff_ffff_ffff) by (nonlinear_arith)
        requires
            0 <= v < 0x1_0000_0000_0000_0000,
            0 <= u < 0x1_0000_0000_0000_0000,
    ;
}

/// A quotient rounded toward zero is no larger in magnitude than the dividend,
/// nor is the remainder.
proof fn lemma_trunc_bounds(x: int, d: int)
    requires
        d != 0,
    ensures
        -abs(x) <= trunc_div(x, d) <= abs(x),
        -abs(x) <= trunc_rem(x, d) <= abs(x),
        x < 0 && d < -1 ==> 2 * trunc_div(x, d) <= -x,
{
    if x > 0 && d > 0 {
        assert(0 <= x / d <= x && 0 <= x % d <= x) by (nonlinear_arith)
            requires
                x > 0 && d > 0,
        ;
    } else if x < 0 && d < 0 {
        let (p, q) = (x * -1, d * -1);
        assert(0 <= p / q <= p && 0 <= p % q <= p) by (nonlinear_arith)
            requires
                p > 0 && q > 0,
        ;
        if q > 1 {
            assert(2 * (p / q) <= p) by (nonlinear_arith)
                requires
                    p > 0 && q > 1,
            ;
        }
    } else if x < 0 {
        let p = x * -1;
        assert(0 <= p / d <= p && 0 <= p % d <= p) by (nonlinear_arith)
            requires
                p > 0 && d > 0,
        ;
    } else if x > 0 {
        let q = d * -1;
        assert(0 <= x / q <= x && 0 <= x % q <= x) by (nonlinear_arith)
            requires
                x > 0 && q > 0,
        ;
    }
}

pub open spec fn abs(x: int) -> int {
    if x < 0 {
        -x
    } else {
        x
    }
}

/// Quotient of a division that cannot overflow, rounded toward zero.
fn div_toward_zero(a: i64, b: i64) -> (q: i64)
    requires
        b != 0,
        !(a == i64::MIN && b == -1),
    ensures
        q == trunc_div(a as int, b as int),
{
    proof {
        lemma_trunc_bounds(a as int, b as int);
    }
    a.checked_div(b).unwrap()
}

fn rem_toward_zero(a: i64, b: i64) -> (r: i64)
    requires
        b != 0,
        !(a == i64::MIN && b == -1),
    ensures
        r == trunc_rem(a as int, b as int),
{
    proof {
        lemma_trunc_bounds(a as int, b as int);
    }
    a.checked_rem(b).unwrap()
}

fn div_toward_zero32(a: i32, b: i32) -> (q: i32)
    requires
        b != 0,
        !(a == i32::MIN && b == -1),
    ensures
        q == trunc_div(a as int, b as int),
{
    proof {
        lemma_trunc_bounds(a as int, b as int);
    }
    a.checked_div(b).unwrap()
}

fn rem_toward_zero32(a: i32, b: i32) -> (r: i32)
    requires
        b != 0,
        !(a == i32::MIN && b == -1),
    ensures
        r == trunc_rem(a as int, b as int),
{
    proof {
        lemma_trunc_bounds(a as int, b as int);
    }
    a.checked_rem(b).unwrap()
}

/// A 64-bit integer operation. Division by zero and signed overflow give the
/// ISA's fixed values; nothing traps.
pub fn alu(op: AluOp, a: i64, b: i64) -> (r: i64)
    ensures
        r == alu_spec(op, a, b),
{
    let sh: u64 = (b as u64) & 0x3f;
    proof {
        assert(((b as u64) & 0x3f) < 64 && (b == 0 <==> b as u64 == 0)) by (bit_vector);
        lemma_product_bounds(a, b);
    }
    match op {
        AluOp::Add => a.wrapping_add(b),
        AluOp::Sub => a.wrapping_sub(b),
        AluOp::Sll => ((a as u64) << sh) as i64,
        AluOp::Slt => if a < b {
            1
        } else {
            0
        },
        AluOp::Sltu => if (a as u64) < (b as u64) {
            1
        } else {
            0
        },
        AluOp::Xor => a ^ b,
        AluOp::Srl => ((a as u64) >> sh) as i64,
        AluOp::Sra => a >> sh,
        AluOp::Or => a | b,
        AluOp::And => a & b,
        AluOp::Mul => a.wrapping_mul(b),
        AluOp::Mulh => (((a as i128) * (b as i128)) >> 64u32) as i64,
        AluOp::Mulhsu => (((a as i128) * (b as u64 as i128)) >> 64u32) as i64,
        AluOp::Mulhu => (((a as u64 as u128) * (b as u64 as u128)) >> 64u32) as i64,
        AluOp::Div => if b == 0 {
            -1
        } else if a == i64::MIN && b == -1 {
            a
        } else {
            div_toward_zero(a, b)
        },
        AluOp::Divu => if b == 0 {
            -1
        } else {
            ((a as u64) / (b as u64)) as i64
        },
        AluOp::Rem => if b == 0 {
            a
        } else if a == i64::MIN && b == -1 {
            0
        } else {
            rem_toward_zero(a, b)
        },
        AluOp::Remu => if b == 0 {
            a
        } else {
            ((a as u64) % (b as u64)) as i64
        },
    }
}

/// A `W` operation: computed on the low 32 bits of the operands, the 32-bit
/// result sign-extended to 64 bits.
pub fn alu_w(op: AluWOp, a: i64, b: i64) -> (r: i64)
    ensures
        r == alu_w_spec(op, a, b),
        r == alu_w_low(op, a, b) as i64,
{
    let a32 = a as i32;
    let b32 = b as i32;
    let sh: u32 = (b as u32) & 0x1f;
    proof {
        assert(((b as u32) & 0x1f) < 32) by (bit_vector);
    }
    let low: i32 = match op {
        AluWOp::Add => a32.wrapping_add(b32),
        AluWOp::Sub => a32.wrapping_sub(b32),
        AluWOp::Sll => ((a as u32) << sh) as i32,
        AluWOp::Srl => ((a as u32) >> sh) as i32,
        AluWOp::Sra => a32 >> sh,
        AluWOp::Mul => a32.wrapping_mul(b32),
        AluWOp::Div => if b32 == 0 {
            -1
        } else if a32 == i32::MIN && b32 == -1 {
            a32
        } else {
            div_toward_zero32(a32, b32)
        },
        AluWOp::Divu => if b as u32 == 0 {
            -1
        } else {
            ((a as u32) / (b as u32)) as i32
        },
        AluWOp::Rem => if b32 == 0 {
            a32
        } else if a32 == i32::MIN && b32 == -1 {
            0
        } else {
            rem_toward_zero32(a32, b32)
        },
        AluWOp::Remu => if b as u32 == 0 {
            a as u32 as i32
        } else {
            ((a as u32) % (b as u32)) as i32
        },
    };
    low as i64
}

/// Every `W` result is the sign extension of its own low 32 bits.
pub proof fn lemma_w_results_sign_extended(op: AluWOp, a: i64, b: i64)
    ensures
        alu_w_spec(op, a, b) == (alu_w_spec(op, a, b) as i32) as i64,
        alu_w_spec(op, a, b) as i32 == alu_w_low(op, a, b),
{
    let v = alu_w_low(op, a, b);
    assert(((v as i64) as i32) as i64 == v as i64 && (v as i64) as i32 == v) by (bit_vector);
}

pub fn branch(op: BranchOp, a: i64, b: i64) -> (taken: bool)
    ensures
        taken == branch_taken(op, a, b),
{
    match op {
        BranchOp::Eq => a == b,
        BranchOp::Ne => a != b,
        BranchOp::Lt => a < b,
        BranchOp::Ge => a >= b,
        BranchOp::Ltu => (a as u64) < (b as u64),
        BranchOp::Geu => (a as u64) >= (b as u64),
    }
}

} // verus!
