//! Classification of a 32-bit instruction word into its handler.
use vstd::prelude::*;
use crate::instruction::{
    AluOp, AluWOp, AmoOp, BranchOp, CsrOp, FloatOp, Instruction, LoadOp, Op, SignOp, StoreOp,
    Width,
};

verus! {

pub open spec fn opcode(w: u32) -> u32 {
    w & 0x7f
}

pub open spec fn funct3(w: u32) -> u32 {
    (w >> 12u32) & 7
}

pub open spec fn funct7(w: u32) -> u32 {
    w >> 25u32
}

/// The `rs2` field, which some encodings use as a further opcode.
pub open spec fn funct_rs2(w: u32) -> u32 {
    (w >> 20u32) & 0x1f
}

pub open spec fn decode_branch_spec(f3: u32) -> Option<Op> {
    if f3 == 0 {
        Some(Op::Branch(BranchOp::Eq))
    } else if f3 == 1 {
        Some(Op::Branch(BranchOp::Ne))
    } else if f3 == 4 {
        Some(Op::Branch(BranchOp::Lt))
    } else if f3 == 5 {
        Some(Op::Branch(BranchOp::Ge))
    } else if f3 == 6 {
        Some(Op::Branch(BranchOp::Ltu))
    } else if f3 == 7 {
        Some(Op::Branch(BranchOp::Geu))
    } else {
        None
    }
}

pub open spec fn decode_load_spec(f3: u32) -> Option<Op> {
    if f3 == 0 {
        Some(Op::Load(LoadOp::Byte))
    } else if f3 == 1 {
        Some(Op::Load(LoadOp::Half))
    } else if f3 == 2 {
        Some(Op::Load(LoadOp::Word))
    } else if f3 == 3 {
        Some(Op::Load(LoadOp::Double))
    } else if f3 == 4 {
        Some(Op::Load(LoadOp::ByteUnsigned))
    } else if f3 == 5 {
        Some(Op::Load(LoadOp::HalfUnsigned))
    } else if f3 == 6 {
        Some(Op::Load(LoadOp::WordUnsigned))
    } else {
        None
    }
}

pub open spec fn decode_store_spec(f3: u32) -> Option<Op> {
    if f3 == 0 {
        Some(Op::Store(StoreOp::Byte))
    } else if f3 == 1 {
        Some(Op::Store(StoreOp::Half))
    } else if f3 == 2 {
        Some(Op::Store(StoreOp::Word))
    } else if f3 == 3 {
        Some(Op::Store(StoreOp::Double))
    } else {
        None
    }
}

/// OP-IMM: `funct6 = word[31:26]` tells the shifts apart (bit 25 is shamt[5]).
pub open spec fn decode_op_imm_spec(f3: u32, funct6: u32) -> Option<Op> {
    if f3 == 0 {
        Some(Op::Imm(AluOp::Add))
    } else if f3 == 2 {
        Some(Op::Imm(AluOp::Slt))
    } else if f3 == 3 {
        Some(Op::Imm(AluOp::Sltu))
    } else if f3 == 4 {
        Some(Op::Imm(AluOp::Xor))
    } else if f3 == 6 {
        Some(Op::Imm(AluOp::Or))
    } else if f3 == 7 {
        Some(Op::Imm(AluOp::And))
    } else if f3 == 1 && funct6 == 0 {
        Some(Op::Imm(AluOp::Sll))
    } else if f3 == 5 && funct6 == 0 {
        Some(Op::Imm(AluOp::Srl))
    } else if f3 == 5 && funct6 == 0x10 {
        Some(Op::Imm(AluOp::Sra))
    } else {
        None
    }
}

pub open spec fn decode_op_spec(f3: u32, f7: u32) -> Option<AluOp> {
    if f7 == 0 {
        if f3 == 0 {
            Some(AluOp::Add)
        } else if f3 == 1 {
            Some(AluOp::Sll)
        } else if f3 == 2 {
            Some(AluOp::Slt)
        } else if f3 == 3 {
            Some(AluOp::Sltu)
        } else if f3 == 4 {
            Some(AluOp::Xor)
        } else if f3 == 5 {
            Some(AluOp::Srl)
        } else if f3 == 6 {
            Some(AluOp::Or)
        } else {
            Some(AluOp::And)
        }
    } else if f7 == 1 {
        if f3 == 0 {
            Some(AluOp::Mul)
        } else if f3 == 1 {
            Some(AluOp::Mulh)
        } else if f3 == 2 {
            Some(AluOp::Mulhsu)
        } else if f3 == 3 {
            Some(AluOp::Mulhu)
        } else if f3 == 4 {
            Some(AluOp::Div)
        } else if f3 == 5 {
            Some(AluOp::Divu)
        } else if f3 == 6 {
            Some(AluOp::Rem)
        } else {
            Some(AluOp::Remu)
        }
    } else if f7 == 0x20 && f3 == 0 {
        Some(AluOp::Sub)
    } else if f7 == 0x20 && f3 == 5 {
        Some(AluOp::Sra)
    } else {
        None
    }
}

pub open spec fn decode_op_imm32_spec(f3: u32, f7: u32) -> Option<Op> {
    if f3 == 0 {
        Some(Op::ImmW(AluWOp::Add))
    } else if f3 == 1 && f7 == 0 {
        Some(Op::ImmW(AluWOp::Sll))
    } else if f3 == 5 && f7 == 0 {
        Some(Op::ImmW(AluWOp::Srl))
    } else if f3 == 5 && f7 == 0x20 {
        Some(Op::ImmW(AluWOp::Sra))
    } else {
        None
    }
}

pub open spec fn decode_op32_spec(f3: u32, f7: u32) -> Option<Op> {
    if f7 == 0 && f3 == 0 {
        Some(Op::RegW(AluWOp::Add))
    } else if f7 == 0x20 && f3 == 0 {
        Some(Op::RegW(AluWOp::Sub))
    } else if f7 == 0 && f3 == 1 {
        Some(Op::RegW(AluWOp::Sll))
    } else if f7 == 0 && f3 == 5 {
        Some(Op::RegW(AluWOp::Srl))
    } else if f7 == 0x20 && f3 == 5 {
        Some(Op::RegW(AluWOp::Sra))
    } else if f7 == 1 && f3 == 0 {
        Some(Op::RegW(AluWOp::Mul))
    } else if f7 == 1 && f3 == 4 {
        Some(Op::RegW(AluWOp::Div))
    } else if f7 == 1 && f3 == 5 {
        Some(Op::RegW(AluWOp::Divu))
    } else if f7 == 1 && f3 == 6 {
        Some(Op::RegW(AluWOp::Rem))
    } else if f7 == 1 && f3 == 7 {
        Some(Op::RegW(AluWOp::Remu))
    } else {
        None
    }
}

/// LOAD-FP / STORE-FP: funct3 2 is single, 3 double precision.
pub open spec fn fp_width_spec(f3: u32) -> Option<Width> {
    if f3 == 2 {
        Some(Width::Word)
    } else if f3 == 3 {
        Some(Width::Double)
    } else {
        None
    }
}

/// The `fmt` field of OP-FP and the fused forms: 0 single, 1 double precision.
pub open spec fn fmt_width_spec(fmt: u32) -> Option<Width> {
    if fmt == 0 {
        Some(Width::Word)
    } else if fmt == 1 {
        Some(Width::Double)
    } else {
        None
    }
}

/// OP-FP, for a given precision, by `funct5 = word[31:27]`, `funct3` and the `rs2` field.
pub open spec fn decode_op_fp_spec(w: Width, g: u32, f3: u32, r2: u32) -> Option<Op> {
    if g == 0 {
        Some(Op::Float(FloatOp::Add, w))
    } else if g == 1 {
        Some(Op::Float(FloatOp::Sub, w))
    } else if g == 2 {
        Some(Op::Float(FloatOp::Mul, w))
    } else if g == 3 {
        Some(Op::Float(FloatOp::Div, w))
    } else if g == 0xb && r2 == 0 {
        Some(Op::Float(FloatOp::Sqrt, w))
    } else if g == 4 && f3 == 0 {
        Some(Op::FloatSign(SignOp::Inject, w))
    } else if g == 4 && f3 == 1 {
        Some(Op::FloatSign(SignOp::Negate, w))
    } else if g == 4 && f3 == 2 {
        Some(Op::FloatSign(SignOp::Xor, w))
    } else if g == 5 && f3 == 0 {
        Some(Op::Float(FloatOp::Min, w))
    } else if g == 5 && f3 == 1 {
        Some(Op::Float(FloatOp::Max, w))
    } else if g == 0x14 && f3 == 2 {
        Some(Op::Float(FloatOp::Eq, w))
    } else if g == 0x14 && f3 == 1 {
        Some(Op::Float(FloatOp::Lt, w))
    } else if g == 0x14 && f3 == 0 {
        Some(Op::Float(FloatOp::Le, w))
    } else if g == 0x18 && r2 == 0 {
        Some(Op::Float(FloatOp::ToWord, w))
    } else if g == 0x18 && r2 == 1 {
        Some(Op::Float(FloatOp::ToWordUnsigned, w))
    } else if g == 0x18 && r2 == 2 {
        Some(Op::Float(FloatOp::ToLong, w))
    } else if g == 0x18 && r2 == 3 {
        Some(Op::Float(FloatOp::ToLongUnsigned, w))
    } else if g == 0x1a && r2 == 0 {
        Some(Op::Float(FloatOp::FromWord, w))
    } else if g == 0x1a && r2 == 1 {
        Some(Op::Float(FloatOp::FromWordUnsigned, w))
    } else if g == 0x1a && r2 == 2 {
        Some(Op::Float(FloatOp::FromLong, w))
    } else if g == 0x1a && r2 == 3 {
        Some(Op::Float(FloatOp::FromLongUnsigned, w))
    } else if g == 0x1c && r2 == 0 && f3 == 0 {
        Some(Op::FloatMoveToInt(w))
    } else if g == 0x1e && r2 == 0 && f3 == 0 {
        Some(Op::FloatMoveFromInt(w))
    } else if g == 0x08 && ((w == Width::Word && r2 == 1) || (w == Width::Double && r2 == 0)) {
        Some(Op::Float(FloatOp::Convert, w))
    } else {
        None
    }
}

pub open spec fn decode_amo_spec(w: Width, f5: u32, r2: u32) -> Option<Op> {
    if f5 == 2 && r2 == 0 {
        Some(Op::LoadReserved(w))
    } else if f5 == 3 {
        Some(Op::StoreConditional(w))
    } else if f5 == 1 {
        Some(Op::Amo(AmoOp::Swap, w))
    } else if f5 == 0 {
        Some(Op::Amo(AmoOp::Add, w))
    } else if f5 == 4 {
        Some(Op::Amo(AmoOp::Xor, w))
    } else if f5 == 0xc {
        Some(Op::Amo(AmoOp::And, w))
    } else if f5 == 8 {
        Some(Op::Amo(AmoOp::Or, w))
    } else if f5 == 0x10 {
        Some(Op::Amo(AmoOp::Min, w))
    } else if f5 == 0x14 {
        Some(Op::Amo(AmoOp::Max, w))
    } else if f5 == 0x18 {
        Some(Op::Amo(AmoOp::Minu, w))
    } else if f5 == 0x1c {
        Some(Op::Amo(AmoOp::Maxu, w))
    } else {
        None
    }
}

pub open spec fn decode_system_spec(word: u32, f3: u32) -> Option<Op> {
    if word == 0x0000_0073 {
        Some(Op::Ecall)
    } else if word == 0x0010_0073 {
        Some(Op::Ebreak)
    } else if word == 0x3020_0073 {
        Some(Op::Mret)
    } else if f3 == 1 {
        Some(Op::Csr(CsrOp::ReadWrite))
    } else if f3 == 2 {
        Some(Op::Csr(CsrOp::ReadSet))
    } else if f3 == 3 {
        Some(Op::Csr(CsrOp::ReadClear))
    } else if f3 == 5 {
        Some(Op::CsrImm(CsrOp::ReadWrite))
    } else if f3 == 6 {
        Some(Op::CsrImm(CsrOp::ReadSet))
    } else if f3 == 7 {
        Some(Op::CsrImm(CsrOp::ReadClear))
    } else {
        None
    }
}

/// The handler of `word`, or `None` for an encoding this core does not implement.
pub open spec fn decode_spec(word: u32) -> Option<Op> {
    let opc = opcode(word);
    let f3 = funct3(word);
    let f7 = funct7(word);
    if opc == 0x37 {
        Some(Op::Lui)
    } else if opc == 0x17 {
        Some(Op::Auipc)
    } else if opc == 0x6f {
        Some(Op::Jal)
    } else if opc == 0x67 {
        if f3 == 0 {
            Some(Op::Jalr)
        } else {
            None
        }
    } else if opc == 0x63 {
        decode_branch_spec(f3)
    } else if opc == 0x03 {
        decode_load_spec(f3)
    } else if opc == 0x23 {
        decode_store_spec(f3)
    } else if opc == 0x13 {
        decode_op_imm_spec(f3, word >> 26u32)
    } else if opc == 0x33 {
        match decode_op_spec(f3, f7) {
            Some(a) => Some(Op::Reg(a)),
            None => None,
        }
    } else if opc == 0x1b {
        decode_op_imm32_spec(f3, f7)
    } else if opc == 0x3b {
        decode_op32_spec(f3, f7)
    } else if opc == 0x07 {
        match fp_width_spec(f3) {
            Some(w) => Some(Op::FloatLoad(w)),
            None => None,
        }
    } else if opc == 0x27 {
        match fp_width_spec(f3) {
            Some(w) => Some(Op::FloatStore(w)),
            None => None,
        }
    } else if opc == 0x53 {
        match fmt_width_spec(f7 & 3) {
            Some(w) => decode_op_fp_spec(w, f7 >> 2u32, f3, funct_rs2(word)),
            None => None,
        }
    } else if opc == 0x43 || opc == 0x47 || opc == 0x4b || opc == 0x4f {
        match fmt_width_spec(f7 & 3) {
            Some(w) => Some(
                Op::Float(
                    if opc == 0x43 {
                        FloatOp::MulAdd
                    } else if opc == 0x47 {
                        FloatOp::MulSub
                    } else if opc == 0x4b {
                        FloatOp::NegMulSub
                    } else {
                        FloatOp::NegMulAdd
                    },
                    w,
                ),
            ),
            None => None,
        }
    } else if opc == 0x0f {
        if f3 == 0 {
            Some(Op::Fence)
        } else if f3 == 1 {
            Some(Op::FenceI)
        } else {
            None
        }
    } else if opc == 0x2f {
        match fp_width_spec(f3) {
            Some(w) => decode_amo_spec(w, word >> 27u32, funct_rs2(word)),
            None => None,
        }
    } else if opc == 0x73 {
        decode_system_spec(word, f3)
    } else {
        None
    }
}


/// Classifies `word`: the handler the decoding table gives it, or `None` for
/// an encoding that is not implemented (the caller raises IllegalInstruction).
pub fn decode(word: u32) -> (r: Option<Instruction>)
    ensures
        r is None <==> decode_spec(word) is None,
        r matches Some(i) ==> decode_spec(word) == Some(i.operation) && i.name == mnemonic(
            i.operation,
        ),
{
    let op = decode_op_of(word);
    match op {
        Some(o) => Some(Instruction { name: op_name(o), operation: o }),
        None => None,
    }
}

/// The assembler mnemonic of a handler.
pub open spec fn mnemonic(op: Op) -> &'static str {
    match op {
        Op::Reg(AluOp::Add) => "ADD",
        Op::Reg(AluOp::Sub) => "SUB",
        Op::Reg(AluOp::Sll) => "SLL",
        Op::Reg(AluOp::Slt) => "SLT",
        Op::Reg(AluOp::Sltu) => "SLTU",
        Op::Reg(AluOp::Xor) => "XOR",
        Op::Reg(AluOp::Srl) => "SRL",
        Op::Reg(AluOp::Sra) => "SRA",
        Op::Reg(AluOp::Or) => "OR",
        Op::Reg(AluOp::And) => "AND",
        Op::Reg(AluOp::Mul) => "MUL",
        Op::Reg(AluOp::Mulh) => "MULH",
        Op::Reg(AluOp::Mulhsu) => "MULHSU",
        Op::Reg(AluOp::Mulhu) => "MULHU",
        Op::Reg(AluOp::Div) => "DIV",
        Op::Reg(AluOp::Divu) => "DIVU",
        Op::Reg(AluOp::Rem) => "REM",
        Op::Reg(AluOp::Remu) => "REMU",
        Op::Imm(AluOp::Add) => "ADDI",
        Op::Imm(AluOp::Slt) => "SLTI",
        Op::Imm(AluOp::Sltu) => "SLTIU",
        Op::Imm(AluOp::Xor) => "XORI",
        Op::Imm(AluOp::Or) => "ORI",
        Op::Imm(AluOp::And) => "ANDI",
        Op::Imm(AluOp::Sll) => "SLLI",
        Op::Imm(AluOp::Srl) => "SRLI",
        Op::Imm(AluOp::Sra) => "SRAI",
        Op::Imm(_) => "OP-IMM",
        Op::RegW(AluWOp::Add) => "ADDW",
        Op::RegW(AluWOp::Sub) => "SUBW",
        Op::RegW(AluWOp::Sll) => "SLLW",
        Op::RegW(AluWOp::Srl) => "SRLW",
        Op::RegW(AluWOp::Sra) => "SRAW",
        Op::RegW(AluWOp::Mul) => "MULW",
        Op::RegW(AluWOp::Div) => "DIVW",
        Op::RegW(AluWOp::Divu) => "DIVUW",
        Op::RegW(AluWOp::Rem) => "REMW",
        Op::RegW(AluWOp::Remu) => "REMUW",
        Op::ImmW(AluWOp::Add) => "ADDIW",
        Op::ImmW(AluWOp::Sll) => "SLLIW",
        Op::ImmW(AluWOp::Srl) => "SRLIW",
        Op::ImmW(AluWOp::Sra) => "SRAIW",
        Op::ImmW(_) => "OP-IMM-32",
        Op::Branch(BranchOp::Eq) => "BEQ",
        Op::Branch(BranchOp::Ne) => "BNE",
        Op::Branch(BranchOp::Lt) => "BLT",
        Op::Branch(BranchOp::Ge) => "BGE",
        Op::Branch(BranchOp::Ltu) => "BLTU",
        Op::Branch(BranchOp::Geu) => "BGEU",
        Op::Load(LoadOp::Byte) => "LB",
        Op::Load(LoadOp::Half) => "LH",
        Op::Load(LoadOp::Word) => "LW",
        Op::Load(LoadOp::Double) => "LD",
        Op::Load(LoadOp::ByteUnsigned) => "LBU",
        Op::Load(LoadOp::HalfUnsigned) => "LHU",
        Op::Load(LoadOp::WordUnsigned) => "LWU",
        Op::Store(StoreOp::Byte) => "SB",
        Op::Store(StoreOp::Half) => "SH",
        Op::Store(StoreOp::Word) => "SW",
        Op::Store(StoreOp::Double) => "SD",
        Op::Lui => "LUI",
        Op::Auipc => "AUIPC",
        Op::Jal => "JAL",
        Op::Jalr => "JALR",
        Op::Fence => "FENCE",
        Op::FenceI => "FENCE.I",
        Op::Ecall => "ECALL",
        Op::Ebreak => "EBREAK",
        Op::Mret => "MRET",
        Op::Csr(CsrOp::ReadWrite) => "CSRRW",
        Op::CsrImm(CsrOp::ReadWrite) => "CSRRWI",
        Op::Csr(CsrOp::ReadSet) => "CSRRS",
        Op::CsrImm(CsrOp::ReadSet) => "CSRRSI",
        Op::Csr(CsrOp::ReadClear) => "CSRRC",
        Op::CsrImm(CsrOp::ReadClear) => "CSRRCI",
        Op::LoadReserved(Width::Word) => "LR.W",
        Op::StoreConditional(Width::Word) => "SC.W",
        Op::Amo(AmoOp::Swap, Width::Word) => "AMOSWAP.W",
        Op::Amo(AmoOp::Add, Width::Word) => "AMOADD.W",
        Op::Amo(AmoOp::Xor, Width::Word) => "AMOXOR.W",
        Op::Amo(AmoOp::And, Width::Word) => "AMOAND.W",
        Op::Amo(AmoOp::Or, Width::Word) => "AMOOR.W",
        Op::Amo(AmoOp::Min, Width::Word) => "AMOMIN.W",
        Op::Amo(AmoOp::Max, Width::Word) => "AMOMAX.W",
        Op::Amo(AmoOp::Minu, Width::Word) => "AMOMINU.W",
        Op::Amo(AmoOp::Maxu, Width::Word) => "AMOMAXU.W",
        Op::LoadReserved(Width::Double) => "LR.D",
        Op::StoreConditional(Width::Double) => "SC.D",
        Op::Amo(AmoOp::Swap, Width::Double) => "AMOSWAP.D",
        Op::Amo(AmoOp::Add, Width::Double) => "AMOADD.D",
        Op::Amo(AmoOp::Xor, Width::Double) => "AMOXOR.D",
        Op::Amo(AmoOp::And, Width::Double) => "AMOAND.D",
        Op::Amo(AmoOp::Or, Width::Double) => "AMOOR.D",
        Op::Amo(AmoOp::Min, Width::Double) => "AMOMIN.D",
        Op::Amo(AmoOp::Max, Width::Double) => "AMOMAX.D",
        Op::Amo(AmoOp::Minu, Width::Double) => "AMOMINU.D",
        Op::Amo(AmoOp::Maxu, Width::Double) => "AMOMAXU.D",
        Op::FloatLoad(Width::Word) => "FLW",
        Op::FloatStore(Width::Word) => "FSW",
        Op::FloatMoveToInt(Width::Word) => "FMV.X.W",
        Op::FloatMoveFromInt(Width::Word) => "FMV.W.X",
        Op::FloatSign(SignOp::Inject, Width::Word) => "FSGNJ.S",
        Op::FloatSign(SignOp::Negate, Width::Word) => "FSGNJN.S",
        Op::FloatSign(SignOp::Xor, Width::Word) => "FSGNJX.S",
        Op::Float(FloatOp::Add, Width::Word) => "FADD.S",
        Op::Float(FloatOp::Sub, Width::Word) => "FSUB.S",
        Op::Float(FloatOp::Mul, Width::Word) => "FMUL.S",
        Op::Float(FloatOp::Div, Width::Word) => "FDIV.S",
        Op::Float(FloatOp::Sqrt, Width::Word) => "FSQRT.S",
        Op::Float(FloatOp::Min, Width::Word) => "FMIN.S",
        Op::Float(FloatOp::Max, Width::Word) => "FMAX.S",
        Op::Float(FloatOp::MulAdd, Width::Word) => "FMADD.S",
        Op::Float(FloatOp::MulSub, Width::Word) => "FMSUB.S",
        Op::Float(FloatOp::NegMulSub, Width::Word) => "FNMSUB.S",
        Op::Float(FloatOp::NegMulAdd, Width::Word) => "FNMADD.S",
        Op::Float(FloatOp::Eq, Width::Word) => "FEQ.S",
        Op::Float(FloatOp::Lt, Width::Word) => "FLT.S",
        Op::Float(FloatOp::Le, Width::Word) => "FLE.S",
        Op::Float(FloatOp::ToWord, Width::Word) => "FCVT.W.S",
        Op::Float(FloatOp::ToWordUnsigned, Width::Word) => "FCVT.WU.S",
        Op::Float(FloatOp::ToLong, Width::Word) => "FCVT.L.S",
        Op::Float(FloatOp::ToLongUnsigned, Width::Word) => "FCVT.LU.S",
        Op::Float(FloatOp::FromWord, Width::Word) => "FCVT.S.W",
        Op::Float(FloatOp::FromWordUnsigned, Width::Word) => "FCVT.S.WU",
        Op::Float(FloatOp::FromLong, Width::Word) => "FCVT.S.L",
        Op::Float(FloatOp::FromLongUnsigned, Width::Word) => "FCVT.S.LU",
        Op::Float(FloatOp::Convert, Width::Word) => "FCVT.S.D",
        Op::FloatLoad(Width::Double) => "FLD",
        Op::FloatStore(Width::Double) => "FSD",
        Op::FloatMoveToInt(Width::Double) => "FMV.X.D",
        Op::FloatMoveFromInt(Width::Double) => "FMV.D.X",
        Op::FloatSign(SignOp::Inject, Width::Double) => "FSGNJ.D",
        Op::FloatSign(SignOp::Negate, Width::Double) => "FSGNJN.D",
        Op::FloatSign(SignOp::Xor, Width::Double) => "FSGNJX.D",
        Op::Float(FloatOp::Add, Width::Double) => "FADD.D",
        Op::Float(FloatOp::Sub, Width::Double) => "FSUB.D",
        Op::Float(FloatOp::Mul, Width::Double) => "FMUL.D",
        Op::Float(FloatOp::Div, Width::Double) => "FDIV.D",
        Op::Float(FloatOp::Sqrt, Width::Double) => "FSQRT.D",
        Op::Float(FloatOp::Min, Width::Double) => "FMIN.D",
        Op::Float(FloatOp::Max, Width::Double) => "FMAX.D",
        Op::Float(FloatOp::MulAdd, Width::Double) => "FMADD.D",
        Op::Float(FloatOp::MulSub, Width::Double) => "FMSUB.D",
        Op::Float(FloatOp::NegMulSub, Width::Double) => "FNMSUB.D",
        Op::Float(FloatOp::NegMulAdd, Width::Double) => "FNMADD.D",
        Op::Float(FloatOp::Eq, Width::Double) => "FEQ.D",
        Op::Float(FloatOp::Lt, Width::Double) => "FLT.D",
        Op::Float(FloatOp::Le, Width::Double) => "FLE.D",
        Op::Float(FloatOp::ToWord, Width::Double) => "FCVT.W.D",
        Op::Float(FloatOp::ToWordUnsigned, Width::Double) => "FCVT.WU.D",
        Op::Float(FloatOp::ToLong, Width::Double) => "FCVT.L.D",
        Op::Float(FloatOp::ToLongUnsigned, Width::Double) => "FCVT.LU.D",
        Op::Float(FloatOp::FromWord, Width::Double) => "FCVT.D.W",
        Op::Float(FloatOp::FromWordUnsigned, Width::Double) => "FCVT.D.WU",
        Op::Float(FloatOp::FromLong, Width::Double) => "FCVT.D.L",
        Op::Float(FloatOp::FromLongUnsigned, Width::Double) => "FCVT.D.LU",
        Op::Float(FloatOp::Convert, Width::Double) => "FCVT.D.S",
    }
}

/// The assembler mnemonic of a handler.
pub fn op_name(op: Op) -> (name: &'static str)
    ensures
        name == mnemonic(op),
{
    match op {
        Op::Reg(AluOp::Add) => "ADD",
        Op::Reg(AluOp::Sub) => "SUB",
        Op::Reg(AluOp::Sll) => "SLL",
        Op::Reg(AluOp::Slt) => "SLT",
        Op::Reg(AluOp::Sltu) => "SLTU",
        Op::Reg(AluOp::Xor) => "XOR",
        Op::Reg(AluOp::Srl) => "SRL",
        Op::Reg(AluOp::Sra) => "SRA",
        Op::Reg(AluOp::Or) => "OR",
        Op::Reg(AluOp::And) => "AND",
        Op::Reg(AluOp::Mul) => "MUL",
        Op::Reg(AluOp::Mulh) => "MULH",
        Op::Reg(AluOp::Mulhsu) => "MULHSU",
        Op::Reg(AluOp::Mulhu) => "MULHU",
        Op::Reg(AluOp::Div) => "DIV",
        Op::Reg(AluOp::Divu) => "DIVU",
        Op::Reg(AluOp::Rem) => "REM",
        Op::Reg(AluOp::Remu) => "REMU",
        Op::Imm(AluOp::Add) => "ADDI",
        Op::Imm(AluOp::Slt) => "SLTI",
        Op::Imm(AluOp::Sltu) => "SLTIU",
        Op::Imm(AluOp::Xor) => "XORI",
        Op::Imm(AluOp::Or) => "ORI",
        Op::Imm(AluOp::And) => "ANDI",
        Op::Imm(AluOp::Sll) => "SLLI",
        Op::Imm(AluOp::Srl) => "SRLI",
        Op::Imm(AluOp::Sra) => "SRAI",
        Op::Imm(_) => "OP-IMM",
        Op::RegW(AluWOp::Add) => "ADDW",
        Op::RegW(AluWOp::Sub) => "SUBW",
        Op::RegW(AluWOp::Sll) => "SLLW",
        Op::RegW(AluWOp::Srl) => "SRLW",
        Op::RegW(AluWOp::Sra) => "SRAW",
        Op::RegW(AluWOp::Mul) => "MULW",
        Op::RegW(AluWOp::Div) => "DIVW",
        Op::RegW(AluWOp::Divu) => "DIVUW",
        Op::RegW(AluWOp::Rem) => "REMW",
        Op::RegW(AluWOp::Remu) => "REMUW",
        Op::ImmW(AluWOp::Add) => "ADDIW",
        Op::ImmW(AluWOp::Sll) => "SLLIW",
        Op::ImmW(AluWOp::Srl) => "SRLIW",
        Op::ImmW(AluWOp::Sra) => "SRAIW",
        Op::ImmW(_) => "OP-IMM-32",
        Op::Branch(BranchOp::Eq) => "BEQ",
        Op::Branch(BranchOp::Ne) => "BNE",
        Op::Branch(BranchOp::Lt) => "BLT",
        Op::Branch(BranchOp::Ge) => "BGE",
        Op::Branch(BranchOp::Ltu) => "BLTU",
        Op::Branch(BranchOp::Geu) => "BGEU",
        Op::Load(LoadOp::Byte) => "LB",
        Op::Load(LoadOp::Half) => "LH",
        Op::Load(LoadOp::Word) => "LW",
        Op::Load(LoadOp::Double) => "LD",
        Op::Load(LoadOp::ByteUnsigned) => "LBU",
        Op::Load(LoadOp::HalfUnsigned) => "LHU",
        Op::Load(LoadOp::WordUnsigned) => "LWU",
        Op::Store(StoreOp::Byte) => "SB",
        Op::Store(StoreOp::Half) => "SH",
        Op::Store(StoreOp::Word) => "SW",
        Op::Store(StoreOp::Double) => "SD",
        Op::Lui => "LUI",
        Op::Auipc => "AUIPC",
        Op::Jal => "JAL",
        Op::Jalr => "JALR",
        Op::Fence => "FENCE",
        Op::FenceI => "FENCE.I",
        Op::Ecall => "ECALL",
        Op::Ebreak => "EBREAK",
        Op::Mret => "MRET",
        Op::Csr(CsrOp::ReadWrite) => "CSRRW",
        Op::CsrImm(CsrOp::ReadWrite) => "CSRRWI",
        Op::Csr(CsrOp::ReadSet) => "CSRRS",
        Op::CsrImm(CsrOp::ReadSet) => "CSRRSI",
        Op::Csr(CsrOp::ReadClear) => "CSRRC",
        Op::CsrImm(CsrOp::ReadClear) => "CSRRCI",
        Op::LoadReserved(Width::Word) => "LR.W",
        Op::StoreConditional(Width::Word) => "SC.W",
        Op::Amo(AmoOp::Swap, Width::Word) => "AMOSWAP.W",
        Op::Amo(AmoOp::Add, Width::Word) => "AMOADD.W",
        Op::Amo(AmoOp::Xor, Width::Word) => "AMOXOR.W",
        Op::Amo(AmoOp::And, Width::Word) => "AMOAND.W",
        Op::Amo(AmoOp::Or, Width::Word) => "AMOOR.W",
        Op::Amo(AmoOp::Min, Width::Word) => "AMOMIN.W",
        Op::Amo(AmoOp::Max, Width::Word) => "AMOMAX.W",
        Op::Amo(AmoOp::Minu, Width::Word) => "AMOMINU.W",
        Op::Amo(AmoOp::Maxu, Width::Word) => "AMOMAXU.W",
        Op::LoadReserved(Width::Double) => "LR.D",
        Op::StoreConditional(Width::Double) => "SC.D",
        Op::Amo(AmoOp::Swap, Width::Double) => "AMOSWAP.D",
        Op::Amo(AmoOp::Add, Width::Double) => "AMOADD.D",
        Op::Amo(AmoOp::Xor, Width::Double) => "AMOXOR.D",
        Op::Amo(AmoOp::And, Width::Double) => "AMOAND.D",
        Op::Amo(AmoOp::Or, Width::Double) => "AMOOR.D",
        Op::Amo(AmoOp::Min, Width::Double) => "AMOMIN.D",
        Op::Amo(AmoOp::Max, Width::Double) => "AMOMAX.D",
        Op::Amo(AmoOp::Minu, Width::Double) => "AMOMINU.D",
        Op::Amo(AmoOp::Maxu, Width::Double) => "AMOMAXU.D",
        Op::FloatLoad(Width::Word) => "FLW",
        Op::FloatStore(Width::Word) => "FSW",
        Op::FloatMoveToInt(Width::Word) => "FMV.X.W",
        Op::FloatMoveFromInt(Width::Word) => "FMV.W.X",
        Op::FloatSign(SignOp::Inject, Width::Word) => "FSGNJ.S",
        Op::FloatSign(SignOp::Negate, Width::Word) => "FSGNJN.S",
        Op::FloatSign(SignOp::Xor, Width::Word) => "FSGNJX.S",
        Op::Float(FloatOp::Add, Width::Word) => "FADD.S",
        Op::Float(FloatOp::Sub, Width::Word) => "FSUB.S",
        Op::Float(FloatOp::Mul, Width::Word) => "FMUL.S",
        Op::Float(FloatOp::Div, Width::Word) => "FDIV.S",
        Op::Float(FloatOp::Sqrt, Width::Word) => "FSQRT.S",
        Op::Float(FloatOp::Min, Width::Word) => "FMIN.S",
        Op::Float(FloatOp::Max, Width::Word) => "FMAX.S",
        Op::Float(FloatOp::MulAdd, Width::Word) => "FMADD.S",
        Op::Float(FloatOp::MulSub, Width::Word) => "FMSUB.S",
        Op::Float(FloatOp::NegMulSub, Width::Word) => "FNMSUB.S",
        Op::Float(FloatOp::NegMulAdd, Width::Word) => "FNMADD.S",
        Op::Float(FloatOp::Eq, Width::Word) => "FEQ.S",
        Op::Float(FloatOp::Lt, Width::Word) => "FLT.S",
        Op::Float(FloatOp::Le, Width::Word) => "FLE.S",
        Op::Float(FloatOp::ToWord, Width::Word) => "FCVT.W.S",
        Op::Float(FloatOp::ToWordUnsigned, Width::Word) => "FCVT.WU.S",
        Op::Float(FloatOp::ToLong, Width::Word) => "FCVT.L.S",
        Op::Float(FloatOp::ToLongUnsigned, Width::Word) => "FCVT.LU.S",
        Op::Float(FloatOp::FromWord, Width::Word) => "FCVT.S.W",
        Op::Float(FloatOp::FromWordUnsigned, Width::Word) => "FCVT.S.WU",
        Op::Float(FloatOp::FromLong, Width::Word) => "FCVT.S.L",
        Op::Float(FloatOp::FromLongUnsigned, Width::Word) => "FCVT.S.LU",
        Op::Float(FloatOp::Convert, Width::Word) => "FCVT.S.D",
        Op::FloatLoad(Width::Double) => "FLD",
        Op::FloatStore(Width::Double) => "FSD",
        Op::FloatMoveToInt(Width::Double) => "FMV.X.D",
        Op::FloatMoveFromInt(Width::Double) => "FMV.D.X",
        Op::FloatSign(SignOp::Inject, Width::Double) => "FSGNJ.D",
        Op::FloatSign(SignOp::Negate, Width::Double) => "FSGNJN.D",
        Op::FloatSign(SignOp::Xor, Width::Double) => "FSGNJX.D",
        Op::Float(FloatOp::Add, Width::Double) => "FADD.D",
        Op::Float(FloatOp::Sub, Width::Double) => "FSUB.D",
        Op::Float(FloatOp::Mul, Width::Double) => "FMUL.D",
        Op::Float(FloatOp::Div, Width::Double) => "FDIV.D",
        Op::Float(FloatOp::Sqrt, Width::Double) => "FSQRT.D",
        Op::Float(FloatOp::Min, Width::Double) => "FMIN.D",
        Op::Float(FloatOp::Max, Width::Double) => "FMAX.D",
        Op::Float(FloatOp::MulAdd, Width::Double) => "FMADD.D",
        Op::Float(FloatOp::MulSub, Width::Double) => "FMSUB.D",
        Op::Float(FloatOp::NegMulSub, Width::Double) => "FNMSUB.D",
        Op::Float(FloatOp::NegMulAdd, Width::Double) => "FNMADD.D",
        Op::Float(FloatOp::Eq, Width::Double) => "FEQ.D",
        Op::Float(FloatOp::Lt, Width::Double) => "FLT.D",
        Op::Float(FloatOp::Le, Width::Double) => "FLE.D",
        Op::Float(FloatOp::ToWord, Width::Double) => "FCVT.W.D",
        Op::Float(FloatOp::ToWordUnsigned, Width::Double) => "FCVT.WU.D",
        Op::Float(FloatOp::ToLong, Width::Double) => "FCVT.L.D",
        Op::Float(FloatOp::ToLongUnsigned, Width::Double) => "FCVT.LU.D",
        Op::Float(FloatOp::FromWord, Width::Double) => "FCVT.D.W",
        Op::Float(FloatOp::FromWordUnsigned, Width::Double) => "FCVT.D.WU",
        Op::Float(FloatOp::FromLong, Width::Double) => "FCVT.D.L",
        Op::Float(FloatOp::FromLongUnsigned, Width::Double) => "FCVT.D.LU",
        Op::Float(FloatOp::Convert, Width::Double) => "FCVT.D.S",
    }
}

fn decode_op_of(word: u32) -> (r: Option<Op>)
    ensures
        r == decode_spec(word),
{
    let opc = word & 0x7f;
    let f3 = (word >> 12) & 7;
    let f7 = word >> 25;
    let r2 = (word >> 20) & 0x1f;
    if opc == 0x37 {
        Some(Op::Lui)
    } else if opc == 0x17 {
        Some(Op::Auipc)
    } else if opc == 0x6f {
        Some(Op::Jal)
    } else if opc == 0x67 {
        if f3 == 0 {
            Some(Op::Jalr)
        } else {
            None
        }
    } else if opc == 0x63 {
        decode_branch(f3)
    } else if opc == 0x03 {
        decode_load(f3)
    } else if opc == 0x23 {
        decode_store(f3)
    } else if opc == 0x13 {
        decode_op_imm(f3, word >> 26)
    } else if opc == 0x33 {
        match decode_op(f3, f7) {
            Some(a) => Some(Op::Reg(a)),
            None => None,
        }
    } else if opc == 0x1b {
        decode_op_imm32(f3, f7)
    } else if opc == 0x3b {
        decode_op32(f3, f7)
    } else if opc == 0x07 {
        match fp_width(f3) {
            Some(w) => Some(Op::FloatLoad(w)),
            None => None,
        }
    } else if opc == 0x27 {
        match fp_width(f3) {
            Some(w) => Some(Op::FloatStore(w)),
            None => None,
        }
    } else if opc == 0x53 {
        match fmt_width(f7 & 3) {
            Some(w) => decode_op_fp(w, f7 >> 2, f3, r2),
            None => None,
        }
    } else if opc == 0x43 || opc == 0x47 || opc == 0x4b || opc == 0x4f {
        match fmt_width(f7 & 3) {
            Some(w) => Some(
                Op::Float(
                    if opc == 0x43 {
                        FloatOp::MulAdd
                    } else if opc == 0x47 {
                        FloatOp::MulSub
                    } else if opc == 0x4b {
                        FloatOp::NegMulSub
                    } else {
                        FloatOp::NegMulAdd
                    },
                    w,
                ),
            ),
            None => None,
        }
    } else if opc == 0x0f {
        if f3 == 0 {
            Some(Op::Fence)
        } else if f3 == 1 {
            Some(Op::FenceI)
        } else {
            None
        }
    } else if opc == 0x2f {
        match fp_width(f3) {
            Some(w) => decode_amo(w, word >> 27, r2),
            None => None,
        }
    } else if opc == 0x73 {
        decode_system(word, f3)
    } else {
        None
    }
}

fn decode_branch(f3: u32) -> (r: Option<Op>)
    ensures
        r == decode_branch_spec(f3),
{
    if f3 == 0 {
        Some(Op::Branch(BranchOp::Eq))
    } else if f3 == 1 {
        Some(Op::Branch(BranchOp::Ne))
    } else if f3 == 4 {
        Some(Op::Branch(BranchOp::Lt))
    } else if f3 == 5 {
        Some(Op::Branch(BranchOp::Ge))
    } else if f3 == 6 {
        Some(Op::Branch(BranchOp::Ltu))
    } else if f3 == 7 {
        Some(Op::Branch(BranchOp::Geu))
    } else {
        None
    }
}

fn decode_load(f3: u32) -> (r: Option<Op>)
    ensures
        r == decode_load_spec(f3),
{
    if f3 == 0 {
        Some(Op::Load(LoadOp::Byte))
    } else if f3 == 1 {
        Some(Op::Load(LoadOp::Half))
    } else if f3 == 2 {
        Some(Op::Load(LoadOp::Word))
    } else if f3 == 3 {
        Some(Op::Load(LoadOp::Double))
    } else if f3 == 4 {
        Some(Op::Load(LoadOp::ByteUnsigned))
    } else if f3 == 5 {
        Some(Op::Load(LoadOp::HalfUnsigned))
    } else if f3 == 6 {
        Some(Op::Load(LoadOp::WordUnsigned))
    } else {
        None
    }
}

fn decode_store(f3: u32) -> (r: Option<Op>)
    ensures
        r == decode_store_spec(f3),
{
    if f3 == 0 {
        Some(Op::Store(StoreOp::Byte))
    } else if f3 == 1 {
        Some(Op::Store(StoreOp::Half))
    } else if f3 == 2 {
        Some(Op::Store(StoreOp::Word))
    } else if f3 == 3 {
        Some(Op::Store(StoreOp::Double))
    } else {
        None
    }
}

fn decode_op_imm(f3: u32, funct6: u32) -> (r: Option<Op>)
    ensures
        r == decode_op_imm_spec(f3, funct6),
{
    if f3 == 0 {
        Some(Op::Imm(AluOp::Add))
    } else if f3 == 2 {
        Some(Op::Imm(AluOp::Slt))
    } else if f3 == 3 {
        Some(Op::Imm(AluOp::Sltu))
    } else if f3 == 4 {
        Some(Op::Imm(AluOp::Xor))
    } else if f3 == 6 {
        Some(Op::Imm(AluOp::Or))
    } else if f3 == 7 {
        Some(Op::Imm(AluOp::And))
    } else if f3 == 1 && funct6 == 0 {
        Some(Op::Imm(AluOp::Sll))
    } else if f3 == 5 && funct6 == 0 {
        Some(Op::Imm(AluOp::Srl))
    } else if f3 == 5 && funct6 == 0x10 {
        Some(Op::Imm(AluOp::Sra))
    } else {
        None
    }
}

fn decode_op(f3: u32, f7: u32) -> (r: Option<AluOp>)
    ensures
        r == decode_op_spec(f3, f7),
{
    if f7 == 0 {
        if f3 == 0 {
            Some(AluOp::Add)
        } else if f3 == 1 {
            Some(AluOp::Sll)
        } else if f3 == 2 {
            Some(AluOp::Slt)
        } else if f3 == 3 {
            Some(AluOp::Sltu)
        } else if f3 == 4 {
            Some(AluOp::Xor)
        } else if f3 == 5 {
            Some(AluOp::Srl)
        } else if f3 == 6 {
            Some(AluOp::Or)
        } else {
            Some(AluOp::And)
        }
    } else if f7 == 1 {
        if f3 == 0 {
            Some(AluOp::Mul)
        } else if f3 == 1 {
            Some(AluOp::Mulh)
        } else if f3 == 2 {
            Some(AluOp::Mulhsu)
        } else if f3 == 3 {
            Some(AluOp::Mulhu)
        } else if f3 == 4 {
            Some(AluOp::Div)
        } else if f3 == 5 {
            Some(AluOp::Divu)
        } else if f3 == 6 {
            Some(AluOp::Rem)
        } else {
            Some(AluOp::Remu)
        }
    } else if f7 == 0x20 && f3 == 0 {
        Some(AluOp::Sub)
    } else if f7 == 0x20 && f3 == 5 {
        Some(AluOp::Sra)
    } else {
        None
    }
}

fn decode_op_imm32(f3: u32, f7: u32) -> (r: Option<Op>)
    ensures
        r == decode_op_imm32_spec(f3, f7),
{
    if f3 == 0 {
        Some(Op::ImmW(AluWOp::Add))
    } else if f3 == 1 && f7 == 0 {
        Some(Op::ImmW(AluWOp::Sll))
    } else if f3 == 5 && f7 == 0 {
        Some(Op::ImmW(AluWOp::Srl))
    } else if f3 == 5 && f7 == 0x20 {
        Some(Op::ImmW(AluWOp::Sra))
    } else {
        None
    }
}

fn decode_op32(f3: u32, f7: u32) -> (r: Option<Op>)
    ensures
        r == decode_op32_spec(f3, f7),
{
    if f7 == 0 && f3 == 0 {
        Some(Op::RegW(AluWOp::Add))
    } else if f7 == 0x20 && f3 == 0 {
        Some(Op::RegW(AluWOp::Sub))
    } else if f7 == 0 && f3 == 1 {
        Some(Op::RegW(AluWOp::Sll))
    } else if f7 == 0 && f3 == 5 {
        Some(Op::RegW(AluWOp::Srl))
    } else if f7 == 0x20 && f3 == 5 {
        Some(Op::RegW(AluWOp::Sra))
    } else if f7 == 1 && f3 == 0 {
        Some(Op::RegW(AluWOp::Mul))
    } else if f7 == 1 && f3 == 4 {
        Some(Op::RegW(AluWOp::Div))
    } else if f7 == 1 && f3 == 5 {
        Some(Op::RegW(AluWOp::Divu))
    } else if f7 == 1 && f3 == 6 {
        Some(Op::RegW(AluWOp::Rem))
    } else if f7 == 1 && f3 == 7 {
        Some(Op::RegW(AluWOp::Remu))
    } else {
        None
    }
}

fn fp_width(f3: u32) -> (r: Option<Width>)
    ensures
        r == fp_width_spec(f3),
{
    if f3 == 2 {
        Some(Width::Word)
    } else if f3 == 3 {
        Some(Width::Double)
    } else {
        None
    }
}

fn fmt_width(fmt: u32) -> (r: Option<Width>)
    ensures
        r == fmt_width_spec(fmt),
{
    if fmt == 0 {
        Some(Width::Word)
    } else if fmt == 1 {
        Some(Width::Double)
    } else {
        None
    }
}

fn decode_op_fp(w: Width, g: u32, f3: u32, r2: u32) -> (r: Option<Op>)
    ensures
        r == decode_op_fp_spec(w, g, f3, r2),
{
    if g == 0 {
        Some(Op::Float(FloatOp::Add, w))
    } else if g == 1 {
        Some(Op::Float(FloatOp::Sub, w))
    } else if g == 2 {
        Some(Op::Float(FloatOp::Mul, w))
    } else if g == 3 {
        Some(Op::Float(FloatOp::Div, w))
    } else if g == 0xb && r2 == 0 {
        Some(Op::Float(FloatOp::Sqrt, w))
    } else if g == 4 && f3 == 0 {
        Some(Op::FloatSign(SignOp::Inject, w))
    } else if g == 4 && f3 == 1 {
        Some(Op::FloatSign(SignOp::Negate, w))
    } else if g == 4 && f3 == 2 {
        Some(Op::FloatSign(SignOp::Xor, w))
    } else if g == 5 && f3 == 0 {
        Some(Op::Float(FloatOp::Min, w))
    } else if g == 5 && f3 == 1 {
        Some(Op::Float(FloatOp::Max, w))
    } else if g == 0x14 && f3 == 2 {
        Some(Op::Float(FloatOp::Eq, w))
    } else if g == 0x14 && f3 == 1 {
        Some(Op::Float(FloatOp::Lt, w))
    } else if g == 0x14 && f3 == 0 {
        Some(Op::Float(FloatOp::Le, w))
    } else if g == 0x18 && r2 == 0 {
        Some(Op::Float(FloatOp::ToWord, w))
    } else if g == 0x18 && r2 == 1 {
        Some(Op::Float(FloatOp::ToWordUnsigned, w))
    } else if g == 0x18 && r2 == 2 {
        Some(Op::Float(FloatOp::ToLong, w))
    } else if g == 0x18 && r2 == 3 {
        Some(Op::Float(FloatOp::ToLongUnsigned, w))
    } else if g == 0x1a && r2 == 0 {
        Some(Op::Float(FloatOp::FromWord, w))
    } else if g == 0x1a && r2 == 1 {
        Some(Op::Float(FloatOp::FromWordUnsigned, w))
    } else if g == 0x1a && r2 == 2 {
        Some(Op::Float(FloatOp::FromLong, w))
    } else if g == 0x1a && r2 == 3 {
        Some(Op::Float(FloatOp::FromLongUnsigned, w))
    } else if g == 0x1c && r2 == 0 && f3 == 0 {
        Some(Op::FloatMoveToInt(w))
    } else if g == 0x1e && r2 == 0 && f3 == 0 {
        Some(Op::FloatMoveFromInt(w))
    } else if g == 0x08 && ((w == Width::Word && r2 == 1) || (w == Width::Double && r2 == 0)) {
        Some(Op::Float(FloatOp::Convert, w))
    } else {
        None
    }
}

fn decode_amo(w: Width, f5: u32, r2: u32) -> (r: Option<Op>)
    ensures
        r == decode_amo_spec(w, f5, r2),
{
    if f5 == 2 && r2 == 0 {
        Some(Op::LoadReserved(w))
    } else if f5 == 3 {
        Some(Op::StoreConditional(w))
    } else if f5 == 1 {
        Some(Op::Amo(AmoOp::Swap, w))
    } else if f5 == 0 {
        Some(Op::Amo(AmoOp::Add, w))
    } else if f5 == 4 {
        Some(Op::Amo(AmoOp::Xor, w))
    } else if f5 == 0xc {
        Some(Op::Amo(AmoOp::And, w))
    } else if f5 == 8 {
        Some(Op::Amo(AmoOp::Or, w))
    } else if f5 == 0x10 {
        Some(Op::Amo(AmoOp::Min, w))
    } else if f5 == 0x14 {
        Some(Op::Amo(AmoOp::Max, w))
    } else if f5 == 0x18 {
        Some(Op::Amo(AmoOp::Minu, w))
    } else if f5 == 0x1c {
        Some(Op::Amo(AmoOp::Maxu, w))
    } else {
        None
    }
}

fn decode_system(word: u32, f3: u32) -> (r: Option<Op>)
    ensures
        r == decode_system_spec(word, f3),
{
    if word == 0x0000_0073 {
        Some(Op::Ecall)
    } else if word == 0x0010_0073 {
        Some(Op::Ebreak)
    } else if word == 0x3020_0073 {
        Some(Op::Mret)
    } else if f3 == 1 {
        Some(Op::Csr(CsrOp::ReadWrite))
    } else if f3 == 2 {
        Some(Op::Csr(CsrOp::ReadSet))
    } else if f3 == 3 {
        Some(Op::Csr(CsrOp::ReadClear))
    } else if f3 == 5 {
        Some(Op::CsrImm(CsrOp::ReadWrite))
    } else if f3 == 6 {
        Some(Op::CsrImm(CsrOp::ReadSet))
    } else if f3 == 7 {
        Some(Op::CsrImm(CsrOp::ReadClear))
    } else {
        None
    }
}

} // verus!
