//! What compressed instructions expand to, stated over the decoded fields of
//! the expansion rather than its bits.
use vstd::prelude::*;
use crate::compressed::{
    addi16sp_imm, addi4spn_imm, cb_offset, ci_imm, ci_shamt, cj_offset, cl_double_offset,
    cl_word_offset, creg, enc_b, enc_i, enc_j, enc_r, enc_s, enc_u, expansion, field, ldsp_offset,
    lui_imm, lwsp_offset, sdsp_offset, swsp_offset, EBREAK_WORD, INVALID_WORD,
};
use crate::decode::{decode_spec, funct3, funct7, funct_rs2, opcode};
use crate::instruction::{
    imm_b, imm_i, imm_j, imm_s, rd_of, rs1_of, rs2_of, sext, AluOp, BranchOp, LoadOp, Op,
};

verus! {

/// Fields of an I-type word built by `enc_i`.
pub proof fn lemma_enc_i(imm: u32, rs1: u32, f3: u32, rd: u32, opc: u32)
    requires
        rs1 < 32 && f3 < 8 && rd < 32 && opc < 128,
    ensures
        opcode(enc_i(imm, rs1, f3, rd, opc)) == opc,
        funct3(enc_i(imm, rs1, f3, rd, opc)) == f3,
        funct7(enc_i(imm, rs1, f3, rd, opc)) == (imm & 0xfff) >> 5u32,
        enc_i(imm, rs1, f3, rd, opc) >> 26u32 == (imm & 0xfff) >> 6u32,
        funct_rs2(enc_i(imm, rs1, f3, rd, opc)) == imm & 0x1f,
        (enc_i(imm, rs1, f3, rd, opc) >> 7u32) & 0x1f == rd,
        (enc_i(imm, rs1, f3, rd, opc) >> 15u32) & 0x1f == rs1,
        imm_i(enc_i(imm, rs1, f3, rd, opc)) == sext((imm & 0xfff) as int, 0x800),
{
    let w = enc_i(imm, rs1, f3, rd, opc);
    assert(w & 0x7f == opc && (w >> 12u32) & 7 == f3 && w >> 25u32 == (imm & 0xfff) >> 5u32 && w
        >> 26u32 == (imm & 0xfff) >> 6u32 && (w >> 20u32) & 0x1f == imm & 0x1f && (w >> 7u32) & 0x1f
        == rd && (w >> 15u32) & 0x1f == rs1 && (w >> 20u32) & 0xfff == imm & 0xfff) by (bit_vector)
        requires
            rs1 < 32 && f3 < 8 && rd < 32 && opc < 128,
            w == ((imm & 0xfff) << 20u32) | (rs1 << 15u32) | (f3 << 12u32) | (rd << 7u32) | opc,
    ;
}

/// Fields of an S-type word built by `enc_s`.
pub proof fn lemma_enc_s(imm: u32, rs2: u32, rs1: u32, f3: u32, opc: u32)
    requires
        rs2 < 32 && rs1 < 32 && f3 < 8 && opc < 128,
    ensures
        opcode(enc_s(imm, rs2, rs1, f3, opc)) == opc,
        funct3(enc_s(imm, rs2, rs1, f3, opc)) == f3,
        (enc_s(imm, rs2, rs1, f3, opc) >> 15u32) & 0x1f == rs1,
        (enc_s(imm, rs2, rs1, f3, opc) >> 20u32) & 0x1f == rs2,
        imm_s(enc_s(imm, rs2, rs1, f3, opc)) == sext((imm & 0xfff) as int, 0x800),
{
    let w = enc_s(imm, rs2, rs1, f3, opc);
    assert(w & 0x7f == opc && (w >> 12u32) & 7 == f3 && (w >> 15u32) & 0x1f == rs1 && (w
        >> 20u32) & 0x1f == rs2 && ((w >> 25u32) & 0x7f) * 32 + ((w >> 7u32) & 0x1f) == imm & 0xfff)
        by (bit_vector)
        requires
            rs2 < 32 && rs1 < 32 && f3 < 8 && opc < 128,
            w == (((imm >> 5u32) & 0x7f) << 25u32) | (rs2 << 20u32) | (rs1 << 15u32) | (f3 << 12u32)
                | ((imm & 0x1f) << 7u32) | opc,
    ;
}

/// Fields of an R-type word built by `enc_r`.
pub proof fn lemma_enc_r(f7: u32, rs2: u32, rs1: u32, f3: u32, rd: u32, opc: u32)
    requires
        f7 < 128 && rs2 < 32 && rs1 < 32 && f3 < 8 && rd < 32 && opc < 128,
    ensures
        opcode(enc_r(f7, rs2, rs1, f3, rd, opc)) == opc,
        funct3(enc_r(f7, rs2, rs1, f3, rd, opc)) == f3,
        funct7(enc_r(f7, rs2, rs1, f3, rd, opc)) == f7,
        (enc_r(f7, rs2, rs1, f3, rd, opc) >> 7u32) & 0x1f == rd,
        (enc_r(f7, rs2, rs1, f3, rd, opc) >> 15u32) & 0x1f == rs1,
        (enc_r(f7, rs2, rs1, f3, rd, opc) >> 20u32) & 0x1f == rs2,
{
    let w = enc_r(f7, rs2, rs1, f3, rd, opc);
    assert(w & 0x7f == opc && (w >> 12u32) & 7 == f3 && w >> 25u32 == f7 && (w >> 7u32) & 0x1f
        == rd && (w >> 15u32) & 0x1f == rs1 && (w >> 20u32) & 0x1f == rs2) by (bit_vector)
        requires
            f7 < 128 && rs2 < 32 && rs1 < 32 && f3 < 8 && rd < 32 && opc < 128,
            w == (f7 << 25u32) | (rs2 << 20u32) | (rs1 << 15u32) | (f3 << 12u32) | (rd << 7u32)
                | opc,
    ;
}

/// Fields of a B-type word built by `enc_b`.
pub proof fn lemma_enc_b(imm: u32, rs2: u32, rs1: u32, f3: u32, opc: u32)
    requires
        rs2 < 32 && rs1 < 32 && f3 < 8 && opc < 128,
    ensures
        opcode(enc_b(imm, rs2, rs1, f3, opc)) == opc,
        funct3(enc_b(imm, rs2, rs1, f3, opc)) == f3,
        (enc_b(imm, rs2, rs1, f3, opc) >> 15u32) & 0x1f == rs1,
        (enc_b(imm, rs2, rs1, f3, opc) >> 20u32) & 0x1f == rs2,
        imm_b(enc_b(imm, rs2, rs1, f3, opc)) == sext((imm & 0x1ffe) as int, 0x1000),
{
    let w = enc_b(imm, rs2, rs1, f3, opc);
    assert(w & 0x7f == opc && (w >> 12u32) & 7 == f3 && (w >> 15u32) & 0x1f == rs1 && (w
        >> 20u32) & 0x1f == rs2 && ((w >> 31u32) & 1) * 0x1000 + ((w >> 7u32) & 1) * 0x800 + ((w
        >> 25u32) & 0x3f) * 0x20 + ((w >> 8u32) & 0xf) * 2 == imm & 0x1ffe) by (bit_vector)
        requires
            rs2 < 32 && rs1 < 32 && f3 < 8 && opc < 128,
            w == (((imm >> 12u32) & 1) << 31u32) | (((imm >> 5u32) & 0x3f) << 25u32) | (rs2
                << 20u32) | (rs1 << 15u32) | (f3 << 12u32) | (((imm >> 1u32) & 0xf) << 8u32) | (((imm
                >> 11u32) & 1) << 7u32) | opc,
    ;
}

/// Fields of a J-type word built by `enc_j`.
pub proof fn lemma_enc_j(imm: u32, rd: u32, opc: u32)
    requires
        rd < 32 && opc < 128,
    ensures
        opcode(enc_j(imm, rd, opc)) == opc,
        (enc_j(imm, rd, opc) >> 7u32) & 0x1f == rd,
        imm_j(enc_j(imm, rd, opc)) == sext((imm & 0x1f_fffe) as int, 0x10_0000),
{
    let w = enc_j(imm, rd, opc);
    assert(w & 0x7f == opc && (w >> 7u32) & 0x1f == rd && ((w >> 31u32) & 1) * 0x10_0000 + ((w
        >> 12u32) & 0xff) * 0x1000 + ((w >> 20u32) & 1) * 0x800 + ((w >> 21u32) & 0x3ff) * 2 == imm
        & 0x1f_fffe) by (bit_vector)
        requires
            rd < 32 && opc < 128,
            w == (((imm >> 20u32) & 1) << 31u32) | (((imm >> 1u32) & 0x3ff) << 21u32) | (((imm
                >> 11u32) & 1) << 20u32) | (((imm >> 12u32) & 0xff) << 12u32) | (rd << 7u32) | opc,
    ;
}

/// Opcode of a U-type word built by `enc_u`.
pub proof fn lemma_enc_u(imm: u32, rd: u32, opc: u32)
    requires
        rd < 32 && opc < 128,
    ensures
        opcode(enc_u(imm, rd, opc)) == opc,
{
    let w = enc_u(imm, rd, opc);
    assert(w & 0x7f == opc) by (bit_vector)
        requires
            rd < 32 && opc < 128,
            w == (imm & 0xffff_f000) | (rd << 7u32) | opc,
    ;
}

/// Ranges of the register fields and shift amounts of a compressed halfword.
proof fn lemma_compressed_field_ranges(h: u32)
    ensures
        field(h, 7, 0x1f) < 32,
        field(h, 2, 0x1f) < 32,
        field(h, 7, 7) < 8,
        field(h, 2, 7) < 8,
        creg(h, 7) < 16,
        creg(h, 2) < 16,
        (ci_shamt(h) & 0xfff) >> 6u32 == 0,
        ((0x400 | ci_shamt(h)) & 0xfff) >> 6u32 == 0x10,
        opcode(EBREAK_WORD) == 0x73,
{
    assert((h >> 7u32) & 0x1f < 32 && (h >> 2u32) & 0x1f < 32 && (h >> 7u32) & 7 < 8 && (h
        >> 2u32) & 7 < 8) by (bit_vector);
    let s = ci_shamt(h);
    assert((s & 0xfff) >> 6u32 == 0 && ((0x400 | s) & 0xfff) >> 6u32 == 0x10 && 0x0010_0073u32
        & 0x7f == 0x73) by (bit_vector)
        requires
            s == (((h >> 12u32) & 1) << 5u32) | ((h >> 2u32) & 0x1f),
    ;
}

/// Every halfword that does not expand to the reserved sentinel expands to a
/// word that the decoder assigns a handler.
pub proof fn lemma_expansions_decode(h: u32)
    requires
        expansion(h) != INVALID_WORD,
    ensures
        decode_spec(expansion(h)) is Some,
{
    lemma_compressed_field_ranges(h);
    let r = field(h, 7, 0x1f);
    let r2 = field(h, 2, 0x1f);
    let c7 = creg(h, 7);
    let c2 = creg(h, 2);
    let op = h & 3;
    let f3 = field(h, 13, 7);
    if op == 0 {
        lemma_enc_i(addi4spn_imm(h), 2, 0, c2, 0x13);
        lemma_enc_i(cl_double_offset(h), c7, 3, c2, 0x07);
        lemma_enc_i(cl_word_offset(h), c7, 2, c2, 0x03);
        lemma_enc_i(cl_double_offset(h), c7, 3, c2, 0x03);
        lemma_enc_s(cl_double_offset(h), c2, c7, 3, 0x27);
        lemma_enc_s(cl_word_offset(h), c2, c7, 2, 0x23);
        lemma_enc_s(cl_double_offset(h), c2, c7, 3, 0x23);
    } else if op == 1 {
        if f3 <= 2 {
            lemma_enc_i(ci_imm(h), r, 0, r, 0x13);
            lemma_enc_i(ci_imm(h), r, 0, r, 0x1b);
            lemma_enc_i(ci_imm(h), 0, 0, r, 0x13);
        } else if f3 == 3 {
            lemma_enc_i(addi16sp_imm(h), 2, 0, 2, 0x13);
            lemma_enc_u(lui_imm(h), r, 0x37);
        } else if f3 == 4 {
            lemma_enc_i(ci_shamt(h), c7, 5, c7, 0x13);
            lemma_enc_i(0x400 | ci_shamt(h), c7, 5, c7, 0x13);
            lemma_enc_i(ci_imm(h), c7, 7, c7, 0x13);
            lemma_enc_r(0x20, c2, c7, 0, c7, 0x33);
            lemma_enc_r(0, c2, c7, 4, c7, 0x33);
            lemma_enc_r(0, c2, c7, 6, c7, 0x33);
            lemma_enc_r(0, c2, c7, 7, c7, 0x33);
            lemma_enc_r(0x20, c2, c7, 0, c7, 0x3b);
            lemma_enc_r(0, c2, c7, 0, c7, 0x3b);
        } else {
            lemma_enc_j(cj_offset(h), 0, 0x6f);
            lemma_enc_b(cb_offset(h), 0, c7, 0, 0x63);
            lemma_enc_b(cb_offset(h), 0, c7, 1, 0x63);
        }
    } else if op == 2 {
        if f3 <= 3 {
            lemma_enc_i(ci_shamt(h), r, 1, r, 0x13);
            lemma_enc_i(ldsp_offset(h), 2, 3, r, 0x07);
            lemma_enc_i(lwsp_offset(h), 2, 2, r, 0x03);
            lemma_enc_i(ldsp_offset(h), 2, 3, r, 0x03);
        } else if f3 == 4 {
            lemma_enc_i(0, r, 0, 0, 0x67);
            lemma_enc_r(0, r2, 0, 0, r, 0x33);
            lemma_enc_i(0, r, 0, 1, 0x67);
            lemma_enc_r(0, r2, r, 0, r, 0x33);
        } else {
            lemma_enc_s(sdsp_offset(h), r2, 2, 3, 0x27);
            lemma_enc_s(swsp_offset(h), r2, 2, 2, 0x23);
            lemma_enc_s(sdsp_offset(h), r2, 2, 3, 0x23);
        }
    }
}

/// C.ADDI4SPN expands to `addi rd', x2, nzuimm` with `rd' = 8 + h[4:2]` and
/// `nzuimm = {h[10:7], h[12:11], h[5], h[6], 00}`, which is not zero.
pub proof fn lemma_c_addi4spn_expansion(h: u32)
    requires
        h & 3 == 0,
        field(h, 13, 7) == 0,
        expansion(h) != INVALID_WORD,
    ensures
        decode_spec(expansion(h)) == Some(Op::Imm(AluOp::Add)),
        rd_of(expansion(h)) == 8 + field(h, 2, 7),
        rs1_of(expansion(h)) == 2,
        imm_i(expansion(h)) == field(h, 11, 3) * 16 + field(h, 7, 0xf) * 64 + field(h, 6, 1) * 4
            + field(h, 5, 1) * 8,
        imm_i(expansion(h)) != 0,
{
    lemma_compressed_field_ranges(h);
    lemma_enc_i(addi4spn_imm(h), 2, 0, creg(h, 2), 0x13);
    let v = addi4spn_imm(h);
    assert(v & 0xfff == ((h >> 11u32) & 3) * 16 + ((h >> 7u32) & 0xf) * 64 + ((h >> 6u32) & 1) * 4
        + ((h >> 5u32) & 1) * 8 && v & 0xfff < 0x800 && v & 0xfff == v) by (bit_vector)
        requires
            v == (((h >> 11u32) & 3) << 4u32) | (((h >> 7u32) & 0xf) << 6u32) | (((h >> 6u32) & 1)
                << 2u32) | (((h >> 5u32) & 1) << 3u32),
    ;
}

/// C.LW expands to `lw rd', offset(rs1')` with `rd' = 8 + h[4:2]`,
/// `rs1' = 8 + h[9:7]` and `offset = {h[5], h[12:10], h[6], 00}`.
pub proof fn lemma_c_lw_expansion(h: u32)
    requires
        h & 3 == 0,
        field(h, 13, 7) == 2,
    ensures
        decode_spec(expansion(h)) == Some(Op::Load(LoadOp::Word)),
        rd_of(expansion(h)) == 8 + field(h, 2, 7),
        rs1_of(expansion(h)) == 8 + field(h, 7, 7),
        imm_i(expansion(h)) == field(h, 10, 7) * 8 + field(h, 6, 1) * 4 + field(h, 5, 1) * 64,
{
    lemma_compressed_field_ranges(h);
    lemma_enc_i(cl_word_offset(h), creg(h, 7), 2, creg(h, 2), 0x03);
    let v = cl_word_offset(h);
    assert(v & 0xfff == ((h >> 10u32) & 7) * 8 + ((h >> 6u32) & 1) * 4 + ((h >> 5u32) & 1) * 64
        && v & 0xfff < 0x800) by (bit_vector)
        requires
            v == (((h >> 10u32) & 7) << 3u32) | (((h >> 6u32) & 1) << 2u32) | (((h >> 5u32) & 1)
                << 6u32),
    ;
}

/// The 12-bit C.J offset `{h[12], h[8], h[10:9], h[6], h[7], h[2], h[11], h[5:3], 0}`
/// as a number.
pub open spec fn cj_offset_value(h: u32) -> int {
    field(h, 12, 1) * 2048 + field(h, 11, 1) * 16 + field(h, 9, 3) * 256 + field(h, 8, 1) * 1024
        + field(h, 7, 1) * 64 + field(h, 6, 1) * 128 + field(h, 3, 7) * 2 + field(h, 2, 1) * 32
}

/// C.J expands to `jal x0, offset` with the 12-bit offset sign-extended.
pub proof fn lemma_c_j_expansion(h: u32)
    requires
        h & 3 == 1,
        field(h, 13, 7) == 5,
    ensures
        decode_spec(expansion(h)) == Some(Op::Jal),
        rd_of(expansion(h)) == 0,
        imm_j(expansion(h)) == sext(cj_offset_value(h), 0x800),
{
    lemma_enc_j(cj_offset(h), 0, 0x6f);
    let c = cj_offset(h);
    let raw = (((h >> 12u32) & 1) * 2048 + ((h >> 11u32) & 1) * 16 + ((h >> 9u32) & 3) * 256 + ((h
        >> 8u32) & 1) * 1024 + ((h >> 7u32) & 1) * 64 + ((h >> 6u32) & 1) * 128 + ((h >> 3u32) & 7)
        * 2 + ((h >> 2u32) & 1) * 32) as u32;
    assert(raw == ((h >> 12u32) & 1) * 2048 + ((h >> 11u32) & 1) * 16 + ((h >> 9u32) & 3) * 256 + ((h
        >> 8u32) & 1) * 1024 + ((h >> 7u32) & 1) * 64 + ((h >> 6u32) & 1) * 128 + ((h >> 3u32) & 7)
        * 2 + ((h >> 2u32) & 1) * 32 && raw < 0x1000 && c & 0x1f_fffe == (if raw < 0x800 {
        raw
    } else {
        (raw + 0x1f_f000) as u32
    })) by (bit_vector)
        requires
            raw == (((h >> 12u32) & 1) * 2048 + ((h >> 11u32) & 1) * 16 + ((h >> 9u32) & 3) * 256 + ((h
        >> 8u32) & 1) * 1024 + ((h >> 7u32) & 1) * 64 + ((h >> 6u32) & 1) * 128 + ((h >> 3u32) & 7)
        * 2 + ((h >> 2u32) & 1) * 32) as u32,
            c == ({
                let v = (((h >> 12u32) & 1) << 11u32) | (((h >> 11u32) & 1) << 4u32) | (((h >> 9u32)
                    & 3) << 8u32) | (((h >> 8u32) & 1) << 10u32) | (((h >> 7u32) & 1) << 6u32) | (((h
                    >> 6u32) & 1) << 7u32) | (((h >> 3u32) & 7) << 1u32) | (((h >> 2u32) & 1) << 5u32);
                if v & 0x800 != 0 {
                    v | 0xffff_f000
                } else {
                    v
                }
            }),
    ;
}

/// The 9-bit C.BEQZ / C.BNEZ offset `{h[12], h[6:5], h[2], h[11:10], h[4:3], 0}`
/// as a number.
pub open spec fn cb_offset_value(h: u32) -> int {
    field(h, 12, 1) * 256 + field(h, 10, 3) * 8 + field(h, 5, 3) * 64 + field(h, 3, 3) * 2 + field(
        h,
        2,
        1,
    ) * 32
}

/// C.BEQZ / C.BNEZ expand to `beq` / `bne rs1', x0, offset` with
/// `rs1' = 8 + h[9:7]` and the 9-bit offset sign-extended.
pub proof fn lemma_c_branch_expansion(h: u32)
    requires
        h & 3 == 1,
        field(h, 13, 7) == 6 || field(h, 13, 7) == 7,
    ensures
        decode_spec(expansion(h)) == Some(
            Op::Branch(
                if field(h, 13, 7) == 6 {
                    BranchOp::Eq
                } else {
                    BranchOp::Ne
                },
            ),
        ),
        rs1_of(expansion(h)) == 8 + field(h, 7, 7),
        rs2_of(expansion(h)) == 0,
        imm_b(expansion(h)) == sext(cb_offset_value(h), 0x100),
{
    lemma_compressed_field_ranges(h);
    lemma_enc_b(cb_offset(h), 0, creg(h, 7), 0, 0x63);
    lemma_enc_b(cb_offset(h), 0, creg(h, 7), 1, 0x63);
    let c = cb_offset(h);
    let raw = (((h >> 12u32) & 1) * 256 + ((h >> 10u32) & 3) * 8 + ((h >> 5u32) & 3) * 64 + ((h
        >> 3u32) & 3) * 2 + ((h >> 2u32) & 1) * 32) as u32;
    assert(raw == ((h >> 12u32) & 1) * 256 + ((h >> 10u32) & 3) * 8 + ((h >> 5u32) & 3) * 64 + ((h
        >> 3u32) & 3) * 2 + ((h >> 2u32) & 1) * 32 && raw < 0x200 && c & 0x1ffe == (if raw < 0x100 {
        raw
    } else {
        (raw + 0x1e00) as u32
    })) by (bit_vector)
        requires
            raw == (((h >> 12u32) & 1) * 256 + ((h >> 10u32) & 3) * 8 + ((h >> 5u32) & 3) * 64 + ((h
        >> 3u32) & 3) * 2 + ((h >> 2u32) & 1) * 32) as u32,
            c == ({
                let v = (((h >> 12u32) & 1) << 8u32) | (((h >> 10u32) & 3) << 3u32) | (((h >> 5u32)
                    & 3) << 6u32) | (((h >> 3u32) & 3) << 1u32) | (((h >> 2u32) & 1) << 5u32);
                if v & 0x100 != 0 {
                    v | 0xffff_fe00
                } else {
                    v
                }
            }),
    ;
}

/// C.ADDI expands to ADDI with `rd = rs1 = h[11:7]` and the immediate
/// `{h[12], h[6:2]}` sign-extended from 6 bits.
pub proof fn lemma_c_addi_expansion(h: u32)
    requires
        h & 3 == 1,
        field(h, 13, 7) == 0,
    ensures
        decode_spec(expansion(h)) == Some(Op::Imm(AluOp::Add)),
        rd_of(expansion(h)) == field(h, 7, 0x1f),
        rs1_of(expansion(h)) == field(h, 7, 0x1f),
        imm_i(expansion(h)) == sext(ci_shamt(h) as int, 0x20),
{
    let w = expansion(h);
    let r = field(h, 7, 0x1f);
    assert(w == enc_i(ci_imm(h), r, 0, r, 0x13));
    assert({
        let v = ((h >> 12u32) & 1) << 5u32 | (h >> 2u32) & 0x1f;
        let imm = if v & 0x20 != 0 { v | 0xffff_ffc0 } else { v };
        let x = ((imm & 0xfff) << 20u32) | (((h >> 7u32) & 0x1f) << 15u32) | (0u32 << 12u32) | (((h
            >> 7u32) & 0x1f) << 7u32) | 0x13;
        &&& x & 0x7f == 0x13
        &&& (x >> 12u32) & 7 == 0
        &&& (x >> 7u32) & 0x1f == (h >> 7u32) & 0x1f
        &&& (x >> 15u32) & 0x1f == (h >> 7u32) & 0x1f
        &&& ((x >> 20u32) & 0xfff) as int == (if v < 0x20 { v as int } else { v + 0xfc0 })
    }) by (bit_vector);
}

} // verus!
