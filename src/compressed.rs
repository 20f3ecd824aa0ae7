//! Expansion of 16-bit compressed instructions into their 32-bit base forms.
use vstd::prelude::*;

verus! {

/// The word a reserved compressed encoding expands to; it decodes as illegal.
pub const INVALID_WORD: u32 = 0xffff_ffff;

/// The EBREAK instruction.
pub const EBREAK_WORD: u32 = 0x0010_0073;

/// `h[lo + width - 1 : lo]`, for `width` given as its mask.
pub open spec fn field(h: u32, lo: u32, mask: u32) -> u32 {
    (h >> lo) & mask
}

/// Sign-extends the `n`-bit value `v` to 32 bits, `sign` being bit `n - 1` of `v`
/// and `high` the mask of bits 31 down to `n`.
pub open spec fn extend(v: u32, sign: u32, high: u32) -> u32 {
    if v & sign != 0 {
        v | high
    } else {
        v
    }
}

pub open spec fn enc_i(imm: u32, rs1: u32, f3: u32, rd: u32, opc: u32) -> u32 {
    ((imm & 0xfff) << 20u32) | (rs1 << 15u32) | (f3 << 12u32) | (rd << 7u32) | opc
}

pub open spec fn enc_s(imm: u32, rs2: u32, rs1: u32, f3: u32, opc: u32) -> u32 {
    (((imm >> 5u32) & 0x7f) << 25u32) | (rs2 << 20u32) | (rs1 << 15u32) | (f3 << 12u32) | ((imm
        & 0x1f) << 7u32) | opc
}

pub open spec fn enc_r(f7: u32, rs2: u32, rs1: u32, f3: u32, rd: u32, opc: u32) -> u32 {
    (f7 << 25u32) | (rs2 << 20u32) | (rs1 << 15u32) | (f3 << 12u32) | (rd << 7u32) | opc
}

pub open spec fn enc_b(imm: u32, rs2: u32, rs1: u32, f3: u32, opc: u32) -> u32 {
    (((imm >> 12u32) & 1) << 31u32) | (((imm >> 5u32) & 0x3f) << 25u32) | (rs2 << 20u32) | (rs1
        << 15u32) | (f3 << 12u32) | (((imm >> 1u32) & 0xf) << 8u32) | (((imm >> 11u32) & 1) << 7u32)
        | opc
}

pub open spec fn enc_j(imm: u32, rd: u32, opc: u32) -> u32 {
    (((imm >> 20u32) & 1) << 31u32) | (((imm >> 1u32) & 0x3ff) << 21u32) | (((imm >> 11u32) & 1)
        << 20u32) | (((imm >> 12u32) & 0xff) << 12u32) | (rd << 7u32) | opc
}

pub open spec fn enc_u(imm: u32, rd: u32, opc: u32) -> u32 {
    (imm & 0xffff_f000) | (rd << 7u32) | opc
}

/// The 6-bit signed immediate `{h[12], h[6:2]}` of C.ADDI, C.ADDIW, C.LI, C.ANDI.
pub open spec fn ci_imm(h: u32) -> u32 {
    extend((field(h, 12, 1) << 5u32) | field(h, 2, 0x1f), 0x20, 0xffff_ffc0)
}

/// The 6-bit shift amount `{h[12], h[6:2]}`.
pub open spec fn ci_shamt(h: u32) -> u32 {
    (field(h, 12, 1) << 5u32) | field(h, 2, 0x1f)
}

/// A compressed register field `h[lo+2:lo]`, naming x8..x15 (or f8..f15).
pub open spec fn creg(h: u32, lo: u32) -> u32 {
    (field(h, lo, 7) + 8) as u32
}

/// Offset of C.LD / C.SD / C.FLD / C.FSD: `{h[6:5], h[12:10], 000}`.
pub open spec fn cl_double_offset(h: u32) -> u32 {
    (field(h, 10, 7) << 3u32) | (field(h, 5, 3) << 6u32)
}

/// Offset of C.LW / C.SW: `{h[5], h[12:10], h[6], 00}`.
pub open spec fn cl_word_offset(h: u32) -> u32 {
    (field(h, 10, 7) << 3u32) | (field(h, 6, 1) << 2u32) | (field(h, 5, 1) << 6u32)
}

/// Immediate of C.ADDI4SPN: `{h[10:7], h[12:11], h[5], h[6], 00}`.
pub open spec fn addi4spn_imm(h: u32) -> u32 {
    (field(h, 11, 3) << 4u32) | (field(h, 7, 0xf) << 6u32) | (field(h, 6, 1) << 2u32) | (field(h, 5, 1)
        << 3u32)
}

/// Immediate of C.ADDI16SP: `{h[12], h[4:3], h[5], h[2], h[6], 0000}`, signed.
pub open spec fn addi16sp_imm(h: u32) -> u32 {
    extend(
        (field(h, 12, 1) << 9u32) | (field(h, 6, 1) << 4u32) | (field(h, 5, 1) << 6u32) | (field(h, 3, 3)
            << 7u32) | (field(h, 2, 1) << 5u32),
        0x200,
        0xffff_fc00,
    )
}

/// Immediate of C.LUI: `{h[12], h[6:2], 12'b0}`, signed.
pub open spec fn lui_imm(h: u32) -> u32 {
    extend((field(h, 12, 1) << 17u32) | (field(h, 2, 0x1f) << 12u32), 0x2_0000, 0xfffc_0000)
}

/// Offset of C.J: `{h[12], h[8], h[10:9], h[6], h[7], h[2], h[11], h[5:3], 0}`, signed.
pub open spec fn cj_offset(h: u32) -> u32 {
    extend(
        (field(h, 12, 1) << 11u32) | (field(h, 11, 1) << 4u32) | (field(h, 9, 3) << 8u32) | (field(h, 8, 1)
            << 10u32) | (field(h, 7, 1) << 6u32) | (field(h, 6, 1) << 7u32) | (field(h, 3, 7) << 1u32)
            | (field(h, 2, 1) << 5u32),
        0x800,
        0xffff_f000,
    )
}

/// Offset of C.BEQZ / C.BNEZ: `{h[12], h[6:5], h[2], h[11:10], h[4:3], 0}`, signed.
pub open spec fn cb_offset(h: u32) -> u32 {
    extend(
        (field(h, 12, 1) << 8u32) | (field(h, 10, 3) << 3u32) | (field(h, 5, 3) << 6u32) | (field(h, 3, 3)
            << 1u32) | (field(h, 2, 1) << 5u32),
        0x100,
        0xffff_fe00,
    )
}

/// Offset of C.LDSP / C.FLDSP: `{h[4:2], h[12], h[6:5], 000}`.
pub open spec fn ldsp_offset(h: u32) -> u32 {
    (field(h, 12, 1) << 5u32) | (field(h, 5, 3) << 3u32) | (field(h, 2, 7) << 6u32)
}

/// Offset of C.LWSP: `{h[3:2], h[12], h[6:4], 00}`.
pub open spec fn lwsp_offset(h: u32) -> u32 {
    (field(h, 12, 1) << 5u32) | (field(h, 4, 7) << 2u32) | (field(h, 2, 3) << 6u32)
}

/// Offset of C.SDSP / C.FSDSP: `{h[9:7], h[12:10], 000}`.
pub open spec fn sdsp_offset(h: u32) -> u32 {
    (field(h, 10, 7) << 3u32) | (field(h, 7, 7) << 6u32)
}

/// Offset of C.SWSP: `{h[8:7], h[12:9], 00}`.
pub open spec fn swsp_offset(h: u32) -> u32 {
    (field(h, 9, 0xf) << 2u32) | (field(h, 7, 3) << 6u32)
}

/// The canonical 32-bit word that the compressed halfword `h` stands for, or
/// `INVALID_WORD` for a reserved encoding.
pub open spec fn expansion(h: u32) -> u32 {
    let op = h & 3;
    let f3 = field(h, 13, 7);
    let r = field(h, 7, 0x1f);
    let r2 = field(h, 2, 0x1f);
    if op == 0 {
        if f3 == 0 {
            if addi4spn_imm(h) != 0 {
                enc_i(addi4spn_imm(h), 2, 0, creg(h, 2), 0x13)
            } else {
                INVALID_WORD
            }
        } else if f3 == 1 {
            enc_i(cl_double_offset(h), creg(h, 7), 3, creg(h, 2), 0x07)
        } else if f3 == 2 {
            enc_i(cl_word_offset(h), creg(h, 7), 2, creg(h, 2), 0x03)
        } else if f3 == 3 {
            enc_i(cl_double_offset(h), creg(h, 7), 3, creg(h, 2), 0x03)
        } else if f3 == 5 {
            enc_s(cl_double_offset(h), creg(h, 2), creg(h, 7), 3, 0x27)
        } else if f3 == 6 {
            enc_s(cl_word_offset(h), creg(h, 2), creg(h, 7), 2, 0x23)
        } else if f3 == 7 {
            enc_s(cl_double_offset(h), creg(h, 2), creg(h, 7), 3, 0x23)
        } else {
            INVALID_WORD
        }
    } else if op == 1 {
        if f3 == 0 {
            enc_i(ci_imm(h), r, 0, r, 0x13)
        } else if f3 == 1 {
            if r != 0 {
                enc_i(ci_imm(h), r, 0, r, 0x1b)
            } else {
                INVALID_WORD
            }
        } else if f3 == 2 {
            enc_i(ci_imm(h), 0, 0, r, 0x13)
        } else if f3 == 3 {
            if r == 2 {
                if addi16sp_imm(h) != 0 {
                    enc_i(addi16sp_imm(h), 2, 0, 2, 0x13)
                } else {
                    INVALID_WORD
                }
            } else if lui_imm(h) != 0 {
                enc_u(lui_imm(h), r, 0x37)
            } else {
                INVALID_WORD
            }
        } else if f3 == 4 {
            let funct2 = field(h, 10, 3);
            if funct2 == 0 {
                enc_i(ci_shamt(h), creg(h, 7), 5, creg(h, 7), 0x13)
            } else if funct2 == 1 {
                enc_i(0x400 | ci_shamt(h), creg(h, 7), 5, creg(h, 7), 0x13)
            } else if funct2 == 2 {
                enc_i(ci_imm(h), creg(h, 7), 7, creg(h, 7), 0x13)
            } else {
                let funct2b = field(h, 5, 3);
                if field(h, 12, 1) == 0 {
                    if funct2b == 0 {
                        enc_r(0x20, creg(h, 2), creg(h, 7), 0, creg(h, 7), 0x33)
                    } else if funct2b == 1 {
                        enc_r(0, creg(h, 2), creg(h, 7), 4, creg(h, 7), 0x33)
                    } else if funct2b == 2 {
                        enc_r(0, creg(h, 2), creg(h, 7), 6, creg(h, 7), 0x33)
                    } else {
                        enc_r(0, creg(h, 2), creg(h, 7), 7, creg(h, 7), 0x33)
                    }
                } else if funct2b == 0 {
                    enc_r(0x20, creg(h, 2), creg(h, 7), 0, creg(h, 7), 0x3b)
                } else if funct2b == 1 {
                    enc_r(0, creg(h, 2), creg(h, 7), 0, creg(h, 7), 0x3b)
                } else {
                    INVALID_WORD
                }
            }
        } else if f3 == 5 {
            enc_j(cj_offset(h), 0, 0x6f)
        } else if f3 == 6 {
            enc_b(cb_offset(h), 0, creg(h, 7), 0, 0x63)
        } else {
            enc_b(cb_offset(h), 0, creg(h, 7), 1, 0x63)
        }
    } else if op == 2 {
        if f3 == 0 {
            enc_i(ci_shamt(h), r, 1, r, 0x13)
        } else if f3 == 1 {
            enc_i(ldsp_offset(h), 2, 3, r, 0x07)
        } else if f3 == 2 {
            if r != 0 {
                enc_i(lwsp_offset(h), 2, 2, r, 0x03)
            } else {
                INVALID_WORD
            }
        } else if f3 == 3 {
            if r != 0 {
                enc_i(ldsp_offset(h), 2, 3, r, 0x03)
            } else {
                INVALID_WORD
            }
        } else if f3 == 4 {
            if field(h, 12, 1) == 0 {
                if r2 == 0 {
                    if r != 0 {
                        enc_i(0, r, 0, 0, 0x67)
                    } else {
                        INVALID_WORD
                    }
                } else {
                    enc_r(0, r2, 0, 0, r, 0x33)
                }
            } else if r2 == 0 {
                if r == 0 {
                    EBREAK_WORD
                } else {
                    enc_i(0, r, 0, 1, 0x67)
                }
            } else {
                enc_r(0, r2, r, 0, r, 0x33)
            }
        } else if f3 == 5 {
            enc_s(sdsp_offset(h), r2, 2, 3, 0x27)
        } else if f3 == 6 {
            enc_s(swsp_offset(h), r2, 2, 2, 0x23)
        } else {
            enc_s(sdsp_offset(h), r2, 2, 3, 0x23)
        }
    } else {
        INVALID_WORD
    }
}

/// Expands a compressed halfword (in the low 16 bits of `h`) to its
/// canonical 32-bit instruction; reserved encodings give `INVALID_WORD`.
pub fn uncompress(h: u32) -> (r: u32)
    ensures
        r == expansion(h),
{
    let op = h & 3;
    let f3 = field_of(h, 13, 7);
    let r = field_of(h, 7, 0x1f);
    let r2 = field_of(h, 2, 0x1f);
    if op == 0 {
        if f3 == 0 {
            if addi4spn_imm_of(h) != 0 {
                enc_i_of(addi4spn_imm_of(h), 2, 0, creg_of(h, 2), 0x13)
            } else {
                INVALID_WORD
            }
        } else if f3 == 1 {
            enc_i_of(cl_double_offset_of(h), creg_of(h, 7), 3, creg_of(h, 2), 0x07)
        } else if f3 == 2 {
            enc_i_of(cl_word_offset_of(h), creg_of(h, 7), 2, creg_of(h, 2), 0x03)
        } else if f3 == 3 {
            enc_i_of(cl_double_offset_of(h), creg_of(h, 7), 3, creg_of(h, 2), 0x03)
        } else if f3 == 5 {
            enc_s_of(cl_double_offset_of(h), creg_of(h, 2), creg_of(h, 7), 3, 0x27)
        } else if f3 == 6 {
            enc_s_of(cl_word_offset_of(h), creg_of(h, 2), creg_of(h, 7), 2, 0x23)
        } else if f3 == 7 {
            enc_s_of(cl_double_offset_of(h), creg_of(h, 2), creg_of(h, 7), 3, 0x23)
        } else {
            INVALID_WORD
        }
    } else if op == 1 {
        if f3 == 0 {
            enc_i_of(ci_imm_of(h), r, 0, r, 0x13)
        } else if f3 == 1 {
            if r != 0 {
                enc_i_of(ci_imm_of(h), r, 0, r, 0x1b)
            } else {
                INVALID_WORD
            }
        } else if f3 == 2 {
            enc_i_of(ci_imm_of(h), 0, 0, r, 0x13)
        } else if f3 == 3 {
            if r == 2 {
                if addi16sp_imm_of(h) != 0 {
                    enc_i_of(addi16sp_imm_of(h), 2, 0, 2, 0x13)
                } else {
                    INVALID_WORD
                }
            } else if lui_imm_of(h) != 0 {
                enc_u_of(lui_imm_of(h), r, 0x37)
            } else {
                INVALID_WORD
            }
        } else if f3 == 4 {
            let funct2 = field_of(h, 10, 3);
            if funct2 == 0 {
                enc_i_of(ci_shamt_of(h), creg_of(h, 7), 5, creg_of(h, 7), 0x13)
            } else if funct2 == 1 {
                enc_i_of(0x400 | ci_shamt_of(h), creg_of(h, 7), 5, creg_of(h, 7), 0x13)
            } else if funct2 == 2 {
                enc_i_of(ci_imm_of(h), creg_of(h, 7), 7, creg_of(h, 7), 0x13)
            } else {
                let funct2b = field_of(h, 5, 3);
                if field_of(h, 12, 1) == 0 {
                    if funct2b == 0 {
                        enc_r_of(0x20, creg_of(h, 2), creg_of(h, 7), 0, creg_of(h, 7), 0x33)
                    } else if funct2b == 1 {
                        enc_r_of(0, creg_of(h, 2), creg_of(h, 7), 4, creg_of(h, 7), 0x33)
                    } else if funct2b == 2 {
                        enc_r_of(0, creg_of(h, 2), creg_of(h, 7), 6, creg_of(h, 7), 0x33)
                    } else {
                        enc_r_of(0, creg_of(h, 2), creg_of(h, 7), 7, creg_of(h, 7), 0x33)
                    }
                } else if funct2b == 0 {
                    enc_r_of(0x20, creg_of(h, 2), creg_of(h, 7), 0, creg_of(h, 7), 0x3b)
                } else if funct2b == 1 {
                    enc_r_of(0, creg_of(h, 2), creg_of(h, 7), 0, creg_of(h, 7), 0x3b)
                } else {
                    INVALID_WORD
                }
            }
        } else if f3 == 5 {
            enc_j_of(cj_offset_of(h), 0, 0x6f)
        } else if f3 == 6 {
            enc_b_of(cb_offset_of(h), 0, creg_of(h, 7), 0, 0x63)
        } else {
            enc_b_of(cb_offset_of(h), 0, creg_of(h, 7), 1, 0x63)
        }
    } else if op == 2 {
        if f3 == 0 {
            enc_i_of(ci_shamt_of(h), r, 1, r, 0x13)
        } else if f3 == 1 {
            enc_i_of(ldsp_offset_of(h), 2, 3, r, 0x07)
        } else if f3 == 2 {
            if r != 0 {
                enc_i_of(lwsp_offset_of(h), 2, 2, r, 0x03)
            } else {
                INVALID_WORD
            }
        } else if f3 == 3 {
            if r != 0 {
                enc_i_of(ldsp_offset_of(h), 2, 3, r, 0x03)
            } else {
                INVALID_WORD
            }
        } else if f3 == 4 {
            if field_of(h, 12, 1) == 0 {
                if r2 == 0 {
                    if r != 0 {
                        enc_i_of(0, r, 0, 0, 0x67)
                    } else {
                        INVALID_WORD
                    }
                } else {
                    enc_r_of(0, r2, 0, 0, r, 0x33)
                }
            } else if r2 == 0 {
                if r == 0 {
                    EBREAK_WORD
                } else {
                    enc_i_of(0, r, 0, 1, 0x67)
                }
            } else {
                enc_r_of(0, r2, r, 0, r, 0x33)
            }
        } else if f3 == 5 {
            enc_s_of(sdsp_offset_of(h), r2, 2, 3, 0x27)
        } else if f3 == 6 {
            enc_s_of(swsp_offset_of(h), r2, 2, 2, 0x23)
        } else {
            enc_s_of(sdsp_offset_of(h), r2, 2, 3, 0x23)
        }
    } else {
        INVALID_WORD
    }
}

fn field_of(h: u32, lo: u32, mask: u32) -> (r: u32)
    requires
        lo < 32,
    ensures
        r == field(h, lo, mask),
{
    (h >> lo) & mask
}

fn extend_of(v: u32, sign: u32, high: u32) -> (r: u32)
    ensures
        r == extend(v, sign, high),
{
    if v & sign != 0 {
        v | high
    } else {
        v
    }
}

fn enc_i_of(imm: u32, rs1: u32, f3: u32, rd: u32, opc: u32) -> (r: u32)
    ensures
        r == enc_i(imm, rs1, f3, rd, opc),
{
    ((imm & 0xfff) << 20) | (rs1 << 15) | (f3 << 12) | (rd << 7) | opc
}

fn enc_s_of(imm: u32, rs2: u32, rs1: u32, f3: u32, opc: u32) -> (r: u32)
    ensures
        r == enc_s(imm, rs2, rs1, f3, opc),
{
    (((imm >> 5) & 0x7f) << 25) | (rs2 << 20) | (rs1 << 15) | (f3 << 12) | ((imm
        & 0x1f) << 7) | opc
}

fn enc_r_of(f7: u32, rs2: u32, rs1: u32, f3: u32, rd: u32, opc: u32) -> (r: u32)
    ensures
        r == enc_r(f7, rs2, rs1, f3, rd, opc),
{
    (f7 << 25) | (rs2 << 20) | (rs1 << 15) | (f3 << 12) | (rd << 7) | opc
}

fn enc_b_of(imm: u32, rs2: u32, rs1: u32, f3: u32, opc: u32) -> (r: u32)
    ensures
        r == enc_b(imm, rs2, rs1, f3, opc),
{
    (((imm >> 12) & 1) << 31) | (((imm >> 5) & 0x3f) << 25) | (rs2 << 20) | (rs1
        << 15) | (f3 << 12) | (((imm >> 1) & 0xf) << 8) | (((imm >> 11) & 1) << 7)
        | opc
}

fn enc_j_of(imm: u32, rd: u32, opc: u32) -> (r: u32)
    ensures
        r == enc_j(imm, rd, opc),
{
    (((imm >> 20) & 1) << 31) | (((imm >> 1) & 0x3ff) << 21) | (((imm >> 11) & 1)
        << 20) | (((imm >> 12) & 0xff) << 12) | (rd << 7) | opc
}

fn enc_u_of(imm: u32, rd: u32, opc: u32) -> (r: u32)
    ensures
        r == enc_u(imm, rd, opc),
{
    (imm & 0xffff_f000) | (rd << 7) | opc
}

fn ci_imm_of(h: u32) -> (r: u32)
    ensures
        r == ci_imm(h),
{
    extend_of((field_of(h, 12, 1) << 5) | field_of(h, 2, 0x1f), 0x20, 0xffff_ffc0)
}

fn ci_shamt_of(h: u32) -> (r: u32)
    ensures
        r == ci_shamt(h),
{
    (field_of(h, 12, 1) << 5) | field_of(h, 2, 0x1f)
}

fn creg_of(h: u32, lo: u32) -> (r: u32)
    requires
        lo < 32,
    ensures
        r == creg(h, lo),
{
    proof {
        assert((h >> lo) & 7 <= 7) by (bit_vector);
    }
    field_of(h, lo, 7) + 8
}

fn cl_double_offset_of(h: u32) -> (r: u32)
    ensures
        r == cl_double_offset(h),
{
    (field_of(h, 10, 7) << 3) | (field_of(h, 5, 3) << 6)
}

fn cl_word_offset_of(h: u32) -> (r: u32)
    ensures
        r == cl_word_offset(h),
{
    (field_of(h, 10, 7) << 3) | (field_of(h, 6, 1) << 2) | (field_of(h, 5, 1) << 6)
}

fn addi4spn_imm_of(h: u32) -> (r: u32)
    ensures
        r == addi4spn_imm(h),
{
    (field_of(h, 11, 3) << 4) | (field_of(h, 7, 0xf) << 6) | (field_of(h, 6, 1) << 2) | (field_of(h, 5, 1)
        << 3)
}

fn addi16sp_imm_of(h: u32) -> (r: u32)
    ensures
        r == addi16sp_imm(h),
{
    extend_of(
        (field_of(h, 12, 1) << 9) | (field_of(h, 6, 1) << 4) | (field_of(h, 5, 1) << 6) | (field_of(h, 3, 3)
            << 7) | (field_of(h, 2, 1) << 5),
        0x200,
        0xffff_fc00,
    )
}

fn lui_imm_of(h: u32) -> (r: u32)
    ensures
        r == lui_imm(h),
{
    extend_of((field_of(h, 12, 1) << 17) | (field_of(h, 2, 0x1f) << 12), 0x2_0000, 0xfffc_0000)
}

fn cj_offset_of(h: u32) -> (r: u32)
    ensures
        r == cj_offset(h),
{
    extend_of(
        (field_of(h, 12, 1) << 11) | (field_of(h, 11, 1) << 4) | (field_of(h, 9, 3) << 8) | (field_of(h, 8, 1)
            << 10) | (field_of(h, 7, 1) << 6) | (field_of(h, 6, 1) << 7) | (field_of(h, 3, 7) << 1)
            | (field_of(h, 2, 1) << 5),
        0x800,
        0xffff_f000,
    )
}

fn cb_offset_of(h: u32) -> (r: u32)
    ensures
        r == cb_offset(h),
{
    extend_of(
        (field_of(h, 12, 1) << 8) | (field_of(h, 10, 3) << 3) | (field_of(h, 5, 3) << 6) | (field_of(h, 3, 3)
            << 1) | (field_of(h, 2, 1) << 5),
        0x100,
        0xffff_fe00,
    )
}

fn ldsp_offset_of(h: u32) -> (r: u32)
    ensures
        r == ldsp_offset(h),
{
    (field_of(h, 12, 1) << 5) | (field_of(h, 5, 3) << 3) | (field_of(h, 2, 7) << 6)
}

fn lwsp_offset_of(h: u32) -> (r: u32)
    ensures
        r == lwsp_offset(h),
{
    (field_of(h, 12, 1) << 5) | (field_of(h, 4, 7) << 2) | (field_of(h, 2, 3) << 6)
}

fn sdsp_offset_of(h: u32) -> (r: u32)
    ensures
        r == sdsp_offset(h),
{
    (field_of(h, 10, 7) << 3) | (field_of(h, 7, 7) << 6)
}

fn swsp_offset_of(h: u32) -> (r: u32)
    ensures
        r == swsp_offset(h),
{
    (field_of(h, 9, 0xf) << 2) | (field_of(h, 7, 3) << 6)
}

} // verus!
