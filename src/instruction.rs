use vstd::prelude::*;

verus! {

/// Sign-extends the `n`-bit two's-complement value `v` (with `0 <= v < 2 * half`,
/// `half == 2^(n-1)`) to an integer.
pub open spec fn sext(v: int, half: int) -> int {
    if v < half {
        v
    } else {
        v - 2 * half
    }
}

/// Register fields of an R-type word.
pub struct FormatR {
    pub rd: usize,
    pub rs1: usize,
    pub rs2: usize,
}

pub open spec fn rd_of(word: u32) -> usize {
    ((word >> 7u32) & 0x1f) as usize
}

pub open spec fn rs1_of(word: u32) -> usize {
    ((word >> 15u32) & 0x1f) as usize
}

pub open spec fn rs2_of(word: u32) -> usize {
    ((word >> 20u32) & 0x1f) as usize
}

pub open spec fn rs3_of(word: u32) -> usize {
    ((word >> 27u32) & 0x1f) as usize
}

/// The 12-bit I-type immediate `word[31:20]`, sign-extended.
pub open spec fn imm_i(word: u32) -> int {
    sext(((word >> 20u32) & 0xfff) as int, 0x800)
}

/// The 12-bit S-type immediate `{word[31:25], word[11:7]}`, sign-extended.
pub open spec fn imm_s(word: u32) -> int {
    sext(((word >> 25u32) & 0x7f) as int * 32 + ((word >> 7u32) & 0x1f) as int, 0x800)
}

/// The 13-bit B-type immediate `{word[31], word[7], word[30:25], word[11:8], 0}`,
/// sign-extended.
pub open spec fn imm_b(word: u32) -> int {
    sext(
        ((word >> 31u32) & 1) as int * 0x1000 + ((word >> 7u32) & 1) as int * 0x800
            + ((word >> 25u32) & 0x3f) as int * 0x20 + ((word >> 8u32) & 0xf) as int * 2,
        0x1000,
    )
}

/// The U-type immediate `{word[31:12], 12'b0}`, sign-extended from 32 bits.
pub open spec fn imm_u(word: u32) -> int {
    sext(((word >> 12u32) & 0xfffff) as int * 0x1000, 0x8000_0000)
}

/// The 21-bit J-type immediate `{word[31], word[19:12], word[20], word[30:21], 0}`,
/// sign-extended.
pub open spec fn imm_j(word: u32) -> int {
    sext(
        ((word >> 31u32) & 1) as int * 0x10_0000 + ((word >> 12u32) & 0xff) as int * 0x1000
            + ((word >> 20u32) & 1) as int * 0x800 + ((word >> 21u32) & 0x3ff) as int * 2,
        0x10_0000,
    )
}

pub fn parse_format_r(word: u32) -> (f: FormatR)
    ensures
        f.rd == rd_of(word),
        f.rs1 == rs1_of(word),
        f.rs2 == rs2_of(word),
        f.rd < 32 && f.rs1 < 32 && f.rs2 < 32,
{
    proof {
        lemma_register_fields(word);
    }
    FormatR {
        rd: ((word >> 7) & 0x1f) as usize,
        rs1: ((word >> 15) & 0x1f) as usize,
        rs2: ((word >> 20) & 0x1f) as usize,
    }
}

pub proof fn lemma_register_fields(word: u32)
    ensures
        (word >> 7u32) & 0x1f < 32,
        (word >> 15u32) & 0x1f < 32,
        (word >> 20u32) & 0x1f < 32,
        (word >> 27u32) & 0x1f < 32,
        (word >> 20u32) & 0xfff < 4096,
{
    assert((word >> 7u32) & 0x1f < 32 && (word >> 15u32) & 0x1f < 32 && (word >> 20u32) & 0x1f
        < 32 && (word >> 27u32) & 0x1f < 32 && (word >> 20u32) & 0xfff < 4096) by (bit_vector);
}

/// Fields of a U-type word (LUI, AUIPC).
pub struct FormatU {
    pub rd: usize,
    pub imm: u64,
}

pub fn parse_format_u(word: u32) -> (f: FormatU)
    ensures
        f.rd == rd_of(word),
        f.rd < 32,
        f.imm == imm_u(word) as u64,
{
    proof {
        lemma_register_fields(word);
    }
    let high: u64 = if word & 0x8000_0000 == 0x8000_0000 {
        0xffff_ffff_0000_0000
    } else {
        0
    };
    let imm = high | ((word as u64) & 0xffff_f000);
    assert(imm == imm_u(word) as u64) by (bit_vector)
        requires
            high == (if word & 0x8000_0000 == 0x8000_0000 {
                0xffff_ffff_0000_0000u64
            } else {
                0u64
            }),
            imm == high | ((word as u64) & 0xffff_f000),
    ;
    FormatU { rd: ((word >> 7) & 0x1f) as usize, imm }
}


/// Fields of an I-type word (immediate arithmetic, loads, JALR).
pub struct FormatI {
    pub rd: usize,
    pub rs1: usize,
    pub imm: i64,
}

pub fn parse_format_i(word: u32) -> (f: FormatI)
    ensures
        f.rd == rd_of(word),
        f.rs1 == rs1_of(word),
        f.rd < 32 && f.rs1 < 32,
        f.imm == imm_i(word),
{
    proof {
        lemma_register_fields(word);
    }
    let high: u32 = if word & 0x8000_0000 == 0x8000_0000 {
        0xffff_f800
    } else {
        0
    };
    let bits = high | ((word >> 20) & 0x7ff);
    let imm = bits as i32 as i64;
    assert(imm == imm_i(word)) by (bit_vector)
        requires
            high == (if word & 0x8000_0000 == 0x8000_0000 {
                0xffff_f800u32
            } else {
                0u32
            }),
            imm == (high | ((word >> 20u32) & 0x7ff)) as i32 as i64,
    ;
    FormatI { rd: ((word >> 7) & 0x1f) as usize, rs1: ((word >> 15) & 0x1f) as usize, imm }
}

/// Fields of a J-type word (JAL).
pub struct FormatJ {
    pub rd: usize,
    pub imm: u64,
}

pub fn parse_format_j(word: u32) -> (f: FormatJ)
    ensures
        f.rd == rd_of(word),
        f.rd < 32,
        f.imm == imm_j(word) as u64,
{
    proof {
        lemma_register_fields(word);
    }
    let high: u32 = if word & 0x8000_0000 == 0x8000_0000 {
        0xfff0_0000
    } else {
        0
    };
    let bits = high | (word & 0x000f_f000) | ((word & 0x0010_0000) >> 9) | ((word & 0x7fe0_0000)
        >> 20);
    let imm = bits as i32 as i64 as u64;
    assert(imm == imm_j(word) as u64) by (bit_vector)
        requires
            high == (if word & 0x8000_0000 == 0x8000_0000 {
                0xfff0_0000u32
            } else {
                0u32
            }),
            imm == (high | (word & 0x000f_f000) | ((word & 0x0010_0000) >> 9u32) | ((word
                & 0x7fe0_0000) >> 20u32)) as i32 as i64 as u64,
    ;
    FormatJ { rd: ((word >> 7) & 0x1f) as usize, imm }
}

/// Fields of a B-type word (conditional branches).
pub struct FormatB {
    pub rs1: usize,
    pub rs2: usize,
    pub imm: u64,
}

pub fn parse_format_b(word: u32) -> (f: FormatB)
    ensures
        f.rs1 == rs1_of(word),
        f.rs2 == rs2_of(word),
        f.rs1 < 32 && f.rs2 < 32,
        f.imm == imm_b(word) as u64,
{
    proof {
        lemma_register_fields(word);
    }
    let high: u32 = if word & 0x8000_0000 == 0x8000_0000 {
        0xffff_f000
    } else {
        0
    };
    let bits = high | ((word << 4) & 0x0000_0800) | ((word >> 20) & 0x0000_07e0) | ((word >> 7)
        & 0x0000_001e);
    let imm = bits as i32 as i64 as u64;
    assert(imm == imm_b(word) as u64) by (bit_vector)
        requires
            high == (if word & 0x8000_0000 == 0x8000_0000 {
                0xffff_f000u32
            } else {
                0u32
            }),
            imm == (high | ((word << 4u32) & 0x0000_0800) | ((word >> 20u32) & 0x0000_07e0) | ((
            word >> 7u32) & 0x0000_001e)) as i32 as i64 as u64,
    ;
    FormatB { rs1: ((word >> 15) & 0x1f) as usize, rs2: ((word >> 20) & 0x1f) as usize, imm }
}

/// Fields of an S-type word (stores).
pub struct FormatS {
    pub rs1: usize,
    pub rs2: usize,
    pub imm: i64,
}

pub fn parse_format_s(word: u32) -> (f: FormatS)
    ensures
        f.rs1 == rs1_of(word),
        f.rs2 == rs2_of(word),
        f.rs1 < 32 && f.rs2 < 32,
        f.imm == imm_s(word),
{
    proof {
        lemma_register_fields(word);
    }
    let high: u32 = if word & 0x8000_0000 == 0x8000_0000 {
        0xffff_f000
    } else {
        0
    };
    let bits = high | ((word >> 20) & 0xfe0) | ((word >> 7) & 0x1f);
    let imm = bits as i32 as i64;
    assert(imm == imm_s(word)) by (bit_vector)
        requires
            high == (if word & 0x8000_0000 == 0x8000_0000 {
                0xffff_f000u32
            } else {
                0u32
            }),
            imm == (high | ((word >> 20u32) & 0xfe0) | ((word >> 7u32) & 0x1f)) as i32 as i64,
    ;
    FormatS { rs1: ((word >> 15) & 0x1f) as usize, rs2: ((word >> 20) & 0x1f) as usize, imm }
}

/// Fields of a CSR-access word: the CSR number, the source register (or the
/// 5-bit immediate) and the destination register.
pub struct FormatCSR {
    pub csr: u16,
    pub rs: usize,
    pub rd: usize,
}

pub open spec fn csr_of(word: u32) -> u16 {
    ((word >> 20u32) & 0xfff) as u16
}

pub fn parse_format_csr(word: u32) -> (f: FormatCSR)
    ensures
        f.csr == csr_of(word),
        f.csr < 4096,
        f.rs == rs1_of(word),
        f.rd == rd_of(word),
        f.rs < 32 && f.rd < 32,
{
    proof {
        lemma_register_fields(word);
    }
    FormatCSR {
        csr: ((word >> 20) & 0xfff) as u16,
        rs: ((word >> 15) & 0x1f) as usize,
        rd: ((word >> 7) & 0x1f) as usize,
    }
}

/// Fields of an R4-type word (fused multiply-add): an R-type word plus `rs3`.
pub struct FormatR2 {
    pub rd: usize,
    pub rs1: usize,
    pub rs2: usize,
    pub rs3: usize,
}

pub fn parse_format_r2(word: u32) -> (f: FormatR2)
    ensures
        f.rd == rd_of(word),
        f.rs1 == rs1_of(word),
        f.rs2 == rs2_of(word),
        f.rs3 == rs3_of(word),
        f.rd < 32 && f.rs1 < 32 && f.rs2 < 32 && f.rs3 < 32,
{
    proof {
        lemma_register_fields(word);
    }
    FormatR2 {
        rd: ((word >> 7) & 0x1f) as usize,
        rs1: ((word >> 15) & 0x1f) as usize,
        rs2: ((word >> 20) & 0x1f) as usize,
        rs3: ((word >> 27) & 0x1f) as usize,
    }
}


/// Data width of a word-or-doubleword operation (`.W` / `.D`, or single /
/// double precision for floating point).
#[derive(Clone, Copy, Debug, PartialEq, Eq, Structural)]
pub enum Width {
    Word,
    Double,
}

/// Register–register (and register–immediate) integer operations on 64 bits.
#[derive(Clone, Copy, Debug, PartialEq, Eq, Structural)]
pub enum AluOp {
    Add,
    Sub,
    Sll,
    Slt,
    Sltu,
    Xor,
    Srl,
    Sra,
    Or,
    And,
    Mul,
    Mulh,
    Mulhsu,
    Mulhu,
    Div,
    Divu,
    Rem,
    Remu,
}

/// Integer operations on the low 32 bits whose result is sign-extended (`W` suffix).
#[derive(Clone, Copy, Debug, PartialEq, Eq, Structural)]
pub enum AluWOp {
    Add,
    Sub,
    Sll,
    Srl,
    Sra,
    Mul,
    Div,
    Divu,
    Rem,
    Remu,
}

#[derive(Clone, Copy, Debug, PartialEq, Eq, Structural)]
pub enum BranchOp {
    Eq,
    Ne,
    Lt,
    Ge,
    Ltu,
    Geu,
}

#[derive(Clone, Copy, Debug, PartialEq, Eq, Structural)]
pub enum LoadOp {
    Byte,
    Half,
    Word,
    Double,
    ByteUnsigned,
    HalfUnsigned,
    WordUnsigned,
}

#[derive(Clone, Copy, Debug, PartialEq, Eq, Structural)]
pub enum StoreOp {
    Byte,
    Half,
    Word,
    Double,
}

#[derive(Clone, Copy, Debug, PartialEq, Eq, Structural)]
pub enum AmoOp {
    Swap,
    Add,
    Xor,
    And,
    Or,
    Min,
    Max,
    Minu,
    Maxu,
}

/// CSRRW / CSRRS / CSRRC (and their immediate forms).
#[derive(Clone, Copy, Debug, PartialEq, Eq, Structural)]
pub enum CsrOp {
    ReadWrite,
    ReadSet,
    ReadClear,
}

/// FSGNJ / FSGNJN / FSGNJX.
#[derive(Clone, Copy, Debug, PartialEq, Eq, Structural)]
pub enum SignOp {
    Inject,
    Negate,
    Xor,
}

/// Floating-point operations whose result needs IEEE arithmetic of the host.
#[derive(Clone, Copy, Debug, PartialEq, Eq, Structural)]
pub enum FloatOp {
    Add,
    Sub,
    Mul,
    Div,
    Sqrt,
    Min,
    Max,
    MulAdd,
    MulSub,
    NegMulSub,
    NegMulAdd,
    Eq,
    Lt,
    Le,
    /// Float to 32-bit signed integer.
    ToWord,
    /// Float to 32-bit unsigned integer.
    ToWordUnsigned,
    /// Float to 64-bit signed integer.
    ToLong,
    /// Float to 64-bit unsigned integer.
    ToLongUnsigned,
    FromWord,
    FromWordUnsigned,
    FromLong,
    FromLongUnsigned,
    /// Conversion from the other precision into the instruction's precision.
    Convert,
}

/// What an instruction does: the handler that the decoder selects.
#[derive(Clone, Copy, Debug, PartialEq, Eq, Structural)]
pub enum Op {
    Lui,
    Auipc,
    Jal,
    Jalr,
    Branch(BranchOp),
    Load(LoadOp),
    Store(StoreOp),
    Imm(AluOp),
    Reg(AluOp),
    ImmW(AluWOp),
    RegW(AluWOp),
    Fence,
    FenceI,
    Ecall,
    Ebreak,
    Mret,
    Csr(CsrOp),
    CsrImm(CsrOp),
    LoadReserved(Width),
    StoreConditional(Width),
    Amo(AmoOp, Width),
    FloatLoad(Width),
    FloatStore(Width),
    /// FMV.X.W / FMV.X.D.
    FloatMoveToInt(Width),
    /// FMV.W.X / FMV.D.X.
    FloatMoveFromInt(Width),
    FloatSign(SignOp, Width),
    Float(FloatOp, Width),
}

/// A decoded instruction: its mnemonic and its handler.
#[derive(Clone, Copy, Debug)]
pub struct Instruction {
    pub name: &'static str,
    pub operation: Op,
}

} // verus!
