//! The architectural meaning of each instruction, as spec functions over a
//! mathematical model of the hart.
use vstd::prelude::*;
use crate::compressed::expansion;
use crate::decode::decode_spec;
use crate::instruction::{
    csr_of, imm_b, imm_i, imm_j, imm_s, imm_u, rd_of, rs1_of, rs2_of, rs3_of, AluOp, AluWOp,
    AmoOp, BranchOp, CsrOp, FloatOp, LoadOp, Op, SignOp, StoreOp, Width,
};
use crate::memory::{load_result, store_outcome, store_result};
use crate::trap::{Trap, TrapType};

verus! {

pub const CSR_FFLAGS: u16 = 0x001;
pub const CSR_FRM: u16 = 0x002;
pub const CSR_FCSR: u16 = 0x003;
pub const CSR_SSTATUS: u16 = 0x100;
pub const CSR_SIE: u16 = 0x104;
pub const CSR_SIP: u16 = 0x144;
pub const CSR_MSTATUS: u16 = 0x300;
pub const CSR_MIDELEG: u16 = 0x303;
pub const CSR_MIE: u16 = 0x304;
pub const CSR_MEPC: u16 = 0x341;
pub const CSR_MIP: u16 = 0x344;
pub const CSR_TIME: u16 = 0xc01;

/// The bits of `mstatus` that `sstatus` shows.
pub const SSTATUS_MASK: u64 = 0x8000_0003_000d_e162;
/// The bits of `mie` / `mip` that `sie` / `sip` show.
pub const SUPERVISOR_INTERRUPT_MASK: u64 = 0x222;
/// The bits of `mideleg` that can be written.
pub const MIDELEG_MASK: u64 = 0x666;

/// Canonical NaN of single precision.
pub const CANONICAL_NAN_SINGLE: u32 = 0x7fc0_0000;
/// Upper half of an FP register that holds a single-precision value.
pub const NAN_BOX: u64 = 0xffff_ffff_0000_0000;

/// The hart's architectural state.
pub struct HartState {
    pub pc: u64,
    pub x: Seq<i64>,
    pub f: Seq<u64>,
    pub csr: Seq<u64>,
    /// Address held by the LR/SC reservation, when one is held.
    pub reservation: Option<u64>,
}

/// A well-formed state has 32 integer and FP registers and 4096 CSRs.
pub open spec fn state_wf(s: HartState) -> bool {
    s.x.len() == 32 && s.f.len() == 32 && s.csr.len() == 4096
}

/// What a retired instruction hands back to the host.
#[derive(Clone, Copy, Debug, PartialEq, Eq, Structural)]
pub enum Event {
    /// The instruction is complete.
    Retired,
    /// An `ECALL` at `address`: the host may act on it.
    EnvironmentCall { word: u32, address: u64 },
    /// An operation that needs host IEEE arithmetic; the result goes back
    /// through `Cpu::complete_float`.
    Float(FloatRequest),
}

/// Operands of a floating-point operation that the host carries out: raw FP
/// register bits `a`, `b`, `c` (rs1, rs2, rs3), the integer source `x`
/// (rs1), and the destination register.
#[derive(Clone, Copy, Debug, PartialEq, Eq, Structural)]
pub struct FloatRequest {
    pub op: FloatOp,
    pub width: Width,
    pub rd: usize,
    pub a: u64,
    pub b: u64,
    pub c: u64,
    pub x: i64,
}

/// The value a host produces for a `FloatRequest`.
#[derive(Clone, Copy, Debug, PartialEq, Eq, Structural)]
pub enum FloatValue {
    Single(u32),
    Double(u64),
    Integer(i64),
}

pub open spec fn illegal(word: u32) -> Trap {
    Trap { trap_type: TrapType::IllegalInstruction, value: word as u64 }
}

// ---------------------------------------------------------------- integers

/// Quotient rounded toward zero.
pub open spec fn trunc_div(x: int, d: int) -> int {
    if x == 0 {
        0
    } else if x > 0 && d > 0 {
        x / d
    } else if x < 0 && d < 0 {
        (x * -1) / (d * -1)
    } else if x < 0 {
        ((x * -1) / d) * -1
    } else {
        (x / (d * -1)) * -1
    }
}

/// Remainder of the quotient rounded toward zero (its sign is the dividend's).
pub open spec fn trunc_rem(x: int, d: int) -> int {
    if x == 0 {
        0
    } else if x > 0 && d > 0 {
        x % d
    } else if x < 0 && d < 0 {
        ((x * -1) % (d * -1)) * -1
    } else if x < 0 {
        ((x * -1) % d) * -1
    } else {
        x % (d * -1)
    }
}

pub open spec fn shamt64(b: i64) -> u64 {
    (b as u64) & 0x3f
}

pub open spec fn shamt32(b: i64) -> u32 {
    (b as u32) & 0x1f
}

/// Result of a 64-bit integer operation on operands `a` and `b`.
pub open spec fn alu_spec(op: AluOp, a: i64, b: i64) -> i64 {
    match op {
        AluOp::Add => vstd::wrapping::i64_specs::wrapping_add(a, b),
        AluOp::Sub => vstd::wrapping::i64_specs::wrapping_sub(a, b),
        AluOp::Sll => ((a as u64) << shamt64(b)) as i64,
        AluOp::Slt => if a < b { 1 } else { 0 },
        AluOp::Sltu => if (a as u64) < (b as u64) { 1 } else { 0 },
        AluOp::Xor => a ^ b,
        AluOp::Srl => ((a as u64) >> shamt64(b)) as i64,
        AluOp::Sra => a >> shamt64(b),
        AluOp::Or => a | b,
        AluOp::And => a & b,
        AluOp::Mul => vstd::wrapping::i64_specs::wrapping_mul(a, b),
        AluOp::Mulh => (((a * b) as i128) >> 64u32) as i64,
        AluOp::Mulhsu => (((a * (b as u64)) as i128) >> 64u32) as i64,
        AluOp::Mulhu => ((((a as u64) * (b as u64)) as u128) >> 64u32) as i64,
        AluOp::Div => if b == 0 {
            -1i64
        } else if a == i64::MIN && b == -1 {
            a
        } else {
            trunc_div(a as int, b as int) as i64
        },
        AluOp::Divu => if b == 0 {
            -1i64
        } else {
            ((a as u64) / (b as u64)) as i64
        },
        AluOp::Rem => if b == 0 {
            a
        } else if a == i64::MIN && b == -1 {
            0
        } else {
            trunc_rem(a as int, b as int) as i64
        },
        AluOp::Remu => if b == 0 {
            a
        } else {
            ((a as u64) % (b as u64)) as i64
        },
    }
}

/// The 32-bit result of a `W` operation on the low halves of `a` and `b`.
pub open spec fn alu_w_low(op: AluWOp, a: i64, b: i64) -> i32 {
    let a32 = a as i32;
    let b32 = b as i32;
    match op {
        AluWOp::Add => vstd::wrapping::i32_specs::wrapping_add(a32, b32),
        AluWOp::Sub => vstd::wrapping::i32_specs::wrapping_sub(a32, b32),
        AluWOp::Sll => ((a as u32) << shamt32(b)) as i32,
        AluWOp::Srl => ((a as u32) >> shamt32(b)) as i32,
        AluWOp::Sra => a32 >> shamt32(b),
        AluWOp::Mul => vstd::wrapping::i32_specs::wrapping_mul(a32, b32),
        AluWOp::Div => if b32 == 0 {
            -1i32
        } else if a32 == i32::MIN && b32 == -1 {
            a32
        } else {
            trunc_div(a32 as int, b32 as int) as i32
        },
        AluWOp::Divu => if b as u32 == 0 {
            -1i32
        } else {
            ((a as u32) / (b as u32)) as i32
        },
        AluWOp::Rem => if b32 == 0 {
            a32
        } else if a32 == i32::MIN && b32 == -1 {
            0
        } else {
            trunc_rem(a32 as int, b32 as int) as i32
        },
        AluWOp::Remu => if b as u32 == 0 {
            a as u32 as i32
        } else {
            ((a as u32) % (b as u32)) as i32
        },
    }
}

/// Result of a `W` operation: its 32-bit result sign-extended to 64 bits.
pub open spec fn alu_w_spec(op: AluWOp, a: i64, b: i64) -> i64 {
    alu_w_low(op, a, b) as i64
}

pub open spec fn branch_taken(op: BranchOp, a: i64, b: i64) -> bool {
    match op {
        BranchOp::Eq => a == b,
        BranchOp::Ne => a != b,
        BranchOp::Lt => a < b,
        BranchOp::Ge => a >= b,
        BranchOp::Ltu => (a as u64) < (b as u64),
        BranchOp::Geu => (a as u64) >= (b as u64),
    }
}

/// Number of bytes a load reads.
pub open spec fn load_size(op: LoadOp) -> int {
    match op {
        LoadOp::Byte | LoadOp::ByteUnsigned => 1,
        LoadOp::Half | LoadOp::HalfUnsigned => 2,
        LoadOp::Word | LoadOp::WordUnsigned => 4,
        LoadOp::Double => 8,
    }
}

/// The register value of a load of unsigned value `v`: sign- or zero-extended.
pub open spec fn load_extend(op: LoadOp, v: int) -> i64 {
    match op {
        LoadOp::Byte => v as i8 as i64,
        LoadOp::Half => v as i16 as i64,
        LoadOp::Word => v as i32 as i64,
        LoadOp::Double => v as i64,
        LoadOp::ByteUnsigned => v as u8 as i64,
        LoadOp::HalfUnsigned => v as u16 as i64,
        LoadOp::WordUnsigned => v as u32 as i64,
    }
}

pub open spec fn store_size(op: StoreOp) -> int {
    match op {
        StoreOp::Byte => 1,
        StoreOp::Half => 2,
        StoreOp::Word => 4,
        StoreOp::Double => 8,
    }
}

pub open spec fn width_size(w: Width) -> int {
    match w {
        Width::Word => 4,
        Width::Double => 8,
    }
}

/// The value of an AMO's memory operand as the register sees it.
pub open spec fn amo_loaded(w: Width, v: int) -> i64 {
    match w {
        Width::Word => v as i32 as i64,
        Width::Double => v as i64,
    }
}

/// The value an AMO stores, from the loaded value `old` and `x[rs2]`.
pub open spec fn amo_spec(op: AmoOp, w: Width, old: i64, src: i64) -> u64 {
    match w {
        Width::Word => {
            let o = old as i32;
            let s = src as i32;
            (match op {
                AmoOp::Swap => s as u32,
                AmoOp::Add => vstd::wrapping::i32_specs::wrapping_add(o, s) as u32,
                AmoOp::Xor => (o ^ s) as u32,
                AmoOp::And => (o & s) as u32,
                AmoOp::Or => (o | s) as u32,
                AmoOp::Min => if s <= o { s as u32 } else { o as u32 },
                AmoOp::Max => if s >= o { s as u32 } else { o as u32 },
                AmoOp::Minu => if (s as u32) <= (o as u32) { s as u32 } else { o as u32 },
                AmoOp::Maxu => if (s as u32) >= (o as u32) { s as u32 } else { o as u32 },
            }) as u64
        },
        Width::Double => match op {
            AmoOp::Swap => src as u64,
            AmoOp::Add => vstd::wrapping::i64_specs::wrapping_add(old, src) as u64,
            AmoOp::Xor => (old ^ src) as u64,
            AmoOp::And => (old & src) as u64,
            AmoOp::Or => (old | src) as u64,
            AmoOp::Min => if src <= old { src as u64 } else { old as u64 },
            AmoOp::Max => if src >= old { src as u64 } else { old as u64 },
            AmoOp::Minu => if (src as u64) <= (old as u64) { src as u64 } else { old as u64 },
            AmoOp::Maxu => if (src as u64) >= (old as u64) { src as u64 } else { old as u64 },
        },
    }
}

// ---------------------------------------------------------------- CSRs

/// Reading CSR `a` from the backing store `c`, through the masked views.
pub open spec fn csr_read(c: Seq<u64>, a: u16) -> u64 {
    if a == CSR_FFLAGS {
        c[CSR_FCSR as int] & 0x1f
    } else if a == CSR_FRM {
        (c[CSR_FCSR as int] >> 5u64) & 0x7
    } else if a == CSR_FCSR {
        c[CSR_FCSR as int] & 0xff
    } else if a == CSR_SSTATUS {
        c[CSR_MSTATUS as int] & SSTATUS_MASK
    } else if a == CSR_SIE {
        c[CSR_MIE as int] & SUPERVISOR_INTERRUPT_MASK
    } else if a == CSR_SIP {
        c[CSR_MIP as int] & SUPERVISOR_INTERRUPT_MASK
    } else {
        c[a as int]
    }
}

/// `backing` with exactly the bits of `mask` replaced by those of `v`.
pub open spec fn merge_masked(backing: u64, v: u64, mask: u64) -> u64 {
    (backing & !mask) | (v & mask)
}

/// Writing `v` to CSR `a` in the backing store `c`, through the masked views.
pub open spec fn csr_write(c: Seq<u64>, a: u16, v: u64) -> Seq<u64> {
    if a == CSR_FFLAGS {
        c.update(CSR_FCSR as int, merge_masked(c[CSR_FCSR as int], v, 0x1f))
    } else if a == CSR_FRM {
        c.update(CSR_FCSR as int, merge_masked(c[CSR_FCSR as int], v << 5u64, 0xe0))
    } else if a == CSR_SSTATUS {
        c.update(CSR_MSTATUS as int, merge_masked(c[CSR_MSTATUS as int], v, SSTATUS_MASK))
    } else if a == CSR_SIE {
        c.update(CSR_MIE as int, merge_masked(c[CSR_MIE as int], v, SUPERVISOR_INTERRUPT_MASK))
    } else if a == CSR_SIP {
        c.update(CSR_MIP as int, merge_masked(c[CSR_MIP as int], v, SUPERVISOR_INTERRUPT_MASK))
    } else if a == CSR_MIDELEG {
        c.update(CSR_MIDELEG as int, v & MIDELEG_MASK)
    } else {
        c.update(a as int, v)
    }
}

/// A CSR write keeps the number of CSRs.
pub proof fn lemma_csr_write_len(c: Seq<u64>, a: u16)
    requires
        c.len() == 4096,
        a < 4096,
    ensures
        forall|v: u64| #[trigger] csr_write(c, a, v).len() == 4096,
{
}

/// The value a CSR instruction writes back, from the old CSR value and the operand.
pub open spec fn csr_new_value(op: CsrOp, old: u64, operand: u64) -> u64 {
    match op {
        CsrOp::ReadWrite => operand,
        CsrOp::ReadSet => old | operand,
        CsrOp::ReadClear => old & !operand,
    }
}

/// `mstatus` after MRET: MIE <- MPIE, MPIE <- 1, MPP <- 0, MPRV <- 0.
pub open spec fn mret_status(status: u64) -> u64 {
    (status & !0x21888u64) | (((status >> 7u64) & 1) << 3u64) | 0x80
}

// ---------------------------------------------------------------- FP registers

/// A single-precision value NaN-boxed into a 64-bit FP register.
pub open spec fn box_single(v: u32) -> u64 {
    NAN_BOX | (v as u64)
}

/// Sign injection on 32-bit patterns.
pub open spec fn sign_inject32(op: SignOp, a: u32, b: u32) -> u32 {
    let sign = match op {
        SignOp::Inject => b & 0x8000_0000,
        SignOp::Negate => (b & 0x8000_0000) ^ 0x8000_0000,
        SignOp::Xor => (a ^ b) & 0x8000_0000,
    };
    sign | (a & 0x7fff_ffff)
}

/// Sign injection on 64-bit patterns.
pub open spec fn sign_inject64(op: SignOp, a: u64, b: u64) -> u64 {
    let sign = match op {
        SignOp::Inject => b & 0x8000_0000_0000_0000,
        SignOp::Negate => (b & 0x8000_0000_0000_0000) ^ 0x8000_0000_0000_0000,
        SignOp::Xor => (a ^ b) & 0x8000_0000_0000_0000,
    };
    sign | (a & 0x7fff_ffff_ffff_ffff)
}

/// FMV.X.W: the low word of an FP register as a sign-extended integer; the
/// pattern 0xFFC00000 reads as the canonical NaN.
pub open spec fn move_to_int_single(bits: u64) -> i64 {
    if bits as u32 == 0xffc0_0000u32 {
        CANONICAL_NAN_SINGLE as i64
    } else {
        bits as u32 as i32 as i64
    }
}

// ---------------------------------------------------------------- steps

/// State, store and result after an instruction.
pub type Outcome = (HartState, Seq<u8>, Result<Event, Trap>);

pub open spec fn with_x(s: HartState, i: int, v: i64) -> HartState {
    HartState { pc: s.pc, x: s.x.update(i, v), f: s.f, csr: s.csr, reservation: s.reservation }
}

pub open spec fn with_f(s: HartState, i: int, v: u64) -> HartState {
    HartState { pc: s.pc, x: s.x, f: s.f.update(i, v), csr: s.csr, reservation: s.reservation }
}

pub open spec fn with_pc(s: HartState, pc: u64) -> HartState {
    HartState { pc, x: s.x, f: s.f, csr: s.csr, reservation: s.reservation }
}

pub open spec fn with_csr(s: HartState, csr: Seq<u64>) -> HartState {
    HartState { pc: s.pc, x: s.x, f: s.f, csr, reservation: s.reservation }
}

pub open spec fn with_reservation(s: HartState, reservation: Option<u64>) -> HartState {
    HartState { pc: s.pc, x: s.x, f: s.f, csr: s.csr, reservation }
}

pub open spec fn retired(s: HartState, m: Seq<u8>) -> Outcome {
    (s, m, Ok(Event::Retired))
}

pub open spec fn add64(a: u64, b: u64) -> u64 {
    vstd::wrapping::u64_specs::wrapping_add(a, b)
}

/// Address `base + offset`, wrapping.
pub open spec fn effective_address(base: i64, offset: int) -> u64 {
    add64(base as u64, offset as u64)
}

/// The second operand of an OP-IMM instruction: the shift amount `word[25:20]`
/// for shifts, the I-immediate otherwise.
pub open spec fn imm_operand(op: AluOp, word: u32) -> i64 {
    if op == AluOp::Sll || op == AluOp::Srl || op == AluOp::Sra {
        ((word >> 20u32) & 0x3f) as i64
    } else {
        imm_i(word) as i64
    }
}

/// The second operand of an OP-IMM-32 instruction.
pub open spec fn imm_w_operand(op: AluWOp, word: u32) -> i64 {
    if op == AluWOp::Add {
        imm_i(word) as i64
    } else {
        ((word >> 20u32) & 0x1f) as i64
    }
}

/// The low `n` bytes of `v` (`n` is 1, 2, 4 or 8).
pub open spec fn narrow(v: u64, n: int) -> u64 {
    if n == 1 {
        v as u8 as u64
    } else if n == 2 {
        v as u16 as u64
    } else if n == 4 {
        v as u32 as u64
    } else {
        v
    }
}

/// Loads, stores and atomics. LR holds a reservation on the address it loads
/// from; SC stores only while that reservation is held at its address and
/// releases it when it succeeds; a failing SC leaves the reservation as it was.
pub open spec fn execute_memory(s: HartState, m: Seq<u8>, op: Op, word: u32) -> Outcome {
    let rd = rd_of(word) as int;
    let a = s.x[rs1_of(word) as int];
    let b = s.x[rs2_of(word) as int];
    match op {
        Op::Load(l) => match load_result(m, effective_address(a, imm_i(word)), load_size(l)) {
            Ok(v) => retired(with_x(s, rd, load_extend(l, v)), m),
            Err(t) => (s, m, Err(t)),
        },
        Op::Store(st) => {
            let ea = effective_address(a, imm_s(word));
            match store_outcome(m, ea, store_size(st)) {
                Ok(_) => retired(
                    s,
                    store_result(m, ea, narrow(b as u64, store_size(st)), store_size(st)),
                ),
                Err(t) => (s, m, Err(t)),
            }
        },
        Op::LoadReserved(w) => match load_result(m, a as u64, width_size(w)) {
            Ok(v) => retired(with_reservation(with_x(s, rd, amo_loaded(w, v)), Some(a as u64)), m),
            Err(t) => (s, m, Err(t)),
        },
        Op::StoreConditional(w) => if s.reservation == Some(a as u64) {
            match store_outcome(m, a as u64, width_size(w)) {
                Ok(_) => retired(
                    with_reservation(with_x(s, rd, 0), None),
                    store_result(m, a as u64, narrow(b as u64, width_size(w)), width_size(w)),
                ),
                Err(t) => (s, m, Err(t)),
            }
        } else {
            retired(with_x(s, rd, 1), m)
        },
        Op::Amo(o, w) => match load_result(m, a as u64, width_size(w)) {
            Ok(v) => {
                let old = amo_loaded(w, v);
                retired(
                    with_x(s, rd, old),
                    store_result(m, a as u64, amo_spec(o, w, old, b), width_size(w)),
                )
            },
            Err(t) => (s, m, Err(t)),
        },
        Op::FloatLoad(w) => match load_result(m, effective_address(a, imm_i(word)), width_size(w)) {
            Ok(v) => retired(
                with_f(
                    s,
                    rd,
                    match w {
                        Width::Word => box_single(v as u32),
                        Width::Double => v as u64,
                    },
                ),
                m,
            ),
            Err(t) => (s, m, Err(t)),
        },
        Op::FloatStore(w) => {
            let ea = effective_address(a, imm_s(word));
            let v = s.f[rs2_of(word) as int];
            match store_outcome(m, ea, width_size(w)) {
                Ok(_) => retired(
                    s,
                    store_result(
                        m,
                        ea,
                        match w {
                            Width::Word => v as u32 as u64,
                            Width::Double => v,
                        },
                        width_size(w),
                    ),
                ),
                Err(t) => (s, m, Err(t)),
            }
        },
        _ => (s, m, Err(illegal(word))),
    }
}

/// Instructions that only touch registers, CSRs and the pc. `addr` is the
/// instruction's own address; `s.pc` already points past it.
pub open spec fn execute_register(s: HartState, m: Seq<u8>, op: Op, word: u32, addr: u64) -> Outcome {
    let rd = rd_of(word) as int;
    let a = s.x[rs1_of(word) as int];
    let b = s.x[rs2_of(word) as int];
    match op {
        Op::Lui => retired(with_x(s, rd, imm_u(word) as u64 as i64), m),
        Op::Auipc => retired(with_x(s, rd, add64(addr, imm_u(word) as u64) as i64), m),
        Op::Jal => retired(with_pc(with_x(s, rd, s.pc as i64), add64(addr, imm_j(word) as u64)), m),
        Op::Jalr => retired(
            with_pc(with_x(s, rd, s.pc as i64), effective_address(a, imm_i(word)) & !1u64),
            m,
        ),
        Op::Branch(c) => if branch_taken(c, a, b) {
            retired(with_pc(s, add64(addr, imm_b(word) as u64)), m)
        } else {
            retired(s, m)
        },
        Op::Imm(o) => retired(with_x(s, rd, alu_spec(o, a, imm_operand(o, word))), m),
        Op::Reg(o) => retired(with_x(s, rd, alu_spec(o, a, b)), m),
        Op::ImmW(o) => retired(with_x(s, rd, alu_w_spec(o, a, imm_w_operand(o, word))), m),
        Op::RegW(o) => retired(with_x(s, rd, alu_w_spec(o, a, b)), m),
        Op::Fence | Op::FenceI | Op::Ebreak => retired(s, m),
        Op::Ecall => (s, m, Ok(Event::EnvironmentCall { word, address: addr })),
        Op::Mret => retired(
            with_csr(
                with_pc(s, csr_read(s.csr, CSR_MEPC)),
                csr_write(s.csr, CSR_MSTATUS, mret_status(csr_read(s.csr, CSR_MSTATUS))),
            ),
            m,
        ),
        Op::Csr(o) => {
            let old = csr_read(s.csr, csr_of(word));
            retired(
                with_csr(
                    with_x(s, rd, old as i64),
                    csr_write(s.csr, csr_of(word), csr_new_value(o, old, a as u64)),
                ),
                m,
            )
        },
        Op::CsrImm(o) => {
            let old = csr_read(s.csr, csr_of(word));
            retired(
                with_csr(
                    with_x(s, rd, old as i64),
                    csr_write(s.csr, csr_of(word), csr_new_value(o, old, rs1_of(word) as u64)),
                ),
                m,
            )
        },
        _ => (s, m, Err(illegal(word))),
    }
}

/// Floating-point instructions: bit moves and sign injection here, the rest
/// handed to the host.
pub open spec fn execute_float(s: HartState, m: Seq<u8>, op: Op, word: u32) -> Outcome {
    let rd = rd_of(word) as int;
    let fa = s.f[rs1_of(word) as int];
    let fb = s.f[rs2_of(word) as int];
    match op {
        Op::FloatMoveToInt(Width::Word) => retired(with_x(s, rd, move_to_int_single(fa)), m),
        Op::FloatMoveToInt(Width::Double) => retired(with_x(s, rd, fa as i64), m),
        Op::FloatMoveFromInt(Width::Word) => retired(
            with_f(s, rd, box_single(s.x[rs1_of(word) as int] as u32)),
            m,
        ),
        Op::FloatMoveFromInt(Width::Double) => retired(
            with_f(s, rd, s.x[rs1_of(word) as int] as u64),
            m,
        ),
        Op::FloatSign(o, Width::Word) => retired(
            with_f(s, rd, box_single(sign_inject32(o, fa as u32, fb as u32))),
            m,
        ),
        Op::FloatSign(o, Width::Double) => retired(with_f(s, rd, sign_inject64(o, fa, fb)), m),
        Op::Float(o, w) => (
            s,
            m,
            Ok(
                Event::Float(
                    FloatRequest {
                        op: o,
                        width: w,
                        rd: rd_of(word),
                        a: fa,
                        b: fb,
                        c: s.f[rs3_of(word) as int],
                        x: s.x[rs1_of(word) as int],
                    },
                ),
            ),
        ),
        _ => (s, m, Err(illegal(word))),
    }
}

pub open spec fn is_memory_op(op: Op) -> bool {
    match op {
        Op::Load(_) | Op::Store(_) | Op::LoadReserved(_) | Op::StoreConditional(_) | Op::Amo(_, _)
        | Op::FloatLoad(_) | Op::FloatStore(_) => true,
        _ => false,
    }
}

pub open spec fn is_float_op(op: Op) -> bool {
    match op {
        Op::FloatMoveToInt(_) | Op::FloatMoveFromInt(_) | Op::FloatSign(_, _) | Op::Float(_, _) => true,
        _ => false,
    }
}

/// The effect of handler `op` for instruction `word` at `addr`, from state `s`
/// whose pc already points at the next instruction.
pub open spec fn execute_spec(s: HartState, m: Seq<u8>, op: Op, word: u32, addr: u64) -> Outcome {
    if is_memory_op(op) {
        execute_memory(s, m, op, word)
    } else if is_float_op(op) {
        execute_float(s, m, op, word)
    } else {
        execute_register(s, m, op, word, addr)
    }
}

pub open spec fn fetch_fault(pc: u64) -> Trap {
    Trap { trap_type: TrapType::InstructionAccessFault, value: pc }
}

/// The instruction at `pc`: its 32-bit form and its length. Fetch reads the
/// 32-bit little-endian word at `pc` (faulting with `pc` when that read
/// fails); a word whose low two bits are not both set holds a compressed
/// instruction in its low half, which is expanded.
pub open spec fn fetch_spec(m: Seq<u8>, pc: u64) -> Result<(u32, u64), Trap> {
    match load_result(m, pc, 4) {
        Err(_) => Err(fetch_fault(pc)),
        Ok(w) => if (w as u32) & 3 == 3 {
            Ok((w as u32, 4))
        } else {
            Ok((expansion((w as u32) & 0xffff), 2))
        },
    }
}

/// `s` with x0 forced back to zero.
pub open spec fn zero_x0(s: HartState) -> HartState {
    with_x(s, 0, 0)
}

pub open spec fn with_x0_zeroed(o: Outcome) -> Outcome {
    (zero_x0(o.0), o.1, o.2)
}

/// `s` with the `time` CSR advanced by one.
pub open spec fn tick_time(s: HartState) -> HartState {
    with_csr(s, s.csr.update(CSR_TIME as int, add64(s.csr[CSR_TIME as int], 1)))
}

/// Runs the instruction of length `len` whose 32-bit form is `word`, at the
/// address `s.pc`, from a state whose `time` has already advanced.
pub open spec fn run_word(s: HartState, m: Seq<u8>, word: u32, len: u64) -> Outcome {
    let u = with_pc(s, add64(s.pc, len));
    match decode_spec(word) {
        None => (zero_x0(u), m, Err(illegal(word))),
        Some(op) => with_x0_zeroed(execute_spec(u, m, op, word, s.pc)),
    }
}

/// One step of the hart: advance `time`, fetch, decode, execute, force x0 to zero.
pub open spec fn step_spec(s: HartState, m: Seq<u8>) -> Outcome {
    let t = tick_time(s);
    match fetch_spec(m, s.pc) {
        Err(e) => (zero_x0(t), m, Err(e)),
        Ok((word, len)) => run_word(t, m, word, len),
    }
}

} // verus!
