use rv64core::compressed::uncompress;
use rv64core::decode::decode;
use rv64core::instruction::{
    parse_format_b, parse_format_i, parse_format_j, parse_format_r, parse_format_r2,
    parse_format_s, parse_format_u, AluOp, Op,
};

#[test]
fn i_type_fields() {
    let f = parse_format_i(0xfff5_0513); // addi a0, a0, -1
    assert_eq!((f.rd, f.rs1, f.imm), (10, 10, -1));
    let g = parse_format_i(0x7ff0_0093); // addi x1, x0, 2047
    assert_eq!(g.imm, 2047);
}

#[test]
fn s_type_fields() {
    let f = parse_format_s(0xfe55_2c23); // sw x5, -8(x10)
    assert_eq!((f.rs1, f.rs2, f.imm), (10, 5, -8));
}

#[test]
fn b_type_fields() {
    let f = parse_format_b(0xfe20_88e3); // beq x1, x2, -16
    assert_eq!((f.rs1, f.rs2), (1, 2));
    assert_eq!(f.imm as i64, -16);
}

#[test]
fn j_type_fields() {
    assert_eq!(parse_format_j(0x0010_00ef).imm, 2048); // jal x1, 2048
    let f = parse_format_j(0xffdf_f0ef); // jal x1, -4
    assert_eq!(f.rd, 1);
    assert_eq!(f.imm as i64, -4);
}

#[test]
fn u_type_fields() {
    let f = parse_format_u(0x8000_02b7); // lui x5, 0x80000
    assert_eq!(f.rd, 5);
    assert_eq!(f.imm, 0xffff_ffff_8000_0000);
    assert_eq!(parse_format_u(0x0000_1297).imm, 0x1000);
}

#[test]
fn r_and_r4_fields() {
    let f = parse_format_r(0x0220_c1b3); // div x3, x1, x2
    assert_eq!((f.rd, f.rs1, f.rs2), (3, 1, 2));
    let g = parse_format_r2(0x2820_81c3); // fmadd.s f3, f1, f2, f5
    assert_eq!((g.rd, g.rs1, g.rs2, g.rs3), (3, 1, 2, 5));
}

#[test]
fn compressed_expansions() {
    assert_eq!(uncompress(0x0505), 0x0015_0513); // c.addi a0, 1
    assert_eq!(uncompress(0x42b2), 0x00c1_2283); // c.lwsp x5, 12(sp)
    assert_eq!(uncompress(0xa021), 0x0080_006f); // c.j 8
    assert_eq!(uncompress(0xdc75), 0xfe04_0ee3); // c.beqz x8, -4
    assert_eq!(uncompress(0xec26), 0x0091_3c23); // c.sdsp x9, 24(sp)
    assert_eq!(uncompress(0x55f5), 0xffd0_0593); // c.li x11, -3
    assert_eq!(uncompress(0x62fd), 0x0001_f2b7); // c.lui x5, 0x1f
    assert_eq!(uncompress(0x7139), 0xfc01_0113); // c.addi16sp sp, -64
    assert_eq!(uncompress(0x8c05), 0x4094_0433); // c.sub x8, x9
    assert_eq!(uncompress(0x829a), 0x0060_02b3); // c.mv x5, x6
    assert_eq!(uncompress(0x8082), 0x0000_8067); // c.jr ra
    assert_eq!(uncompress(0x9002), 0x0010_0073); // c.ebreak
    assert_eq!(uncompress(0x6904), 0x0105_3483); // c.ld x9, 16(x10)
    assert_eq!(uncompress(0xc144), 0x0095_2223); // c.sw x9, 4(x10)
}

#[test]
fn compressed_reserved_encodings_are_invalid() {
    assert_eq!(uncompress(0x0000), 0xffff_ffff); // c.addi4spn with zero immediate
    assert_eq!(uncompress(0x8002), 0xffff_ffff); // c.jr x0
    assert_eq!(uncompress(0x4002), 0xffff_ffff); // c.lwsp x0
    assert_eq!(uncompress(0x6101), 0xffff_ffff); // c.addi16sp with zero immediate
}

#[test]
fn decoder_names() {
    let names = [
        (0x0220_c1b3u32, "DIV"),
        (0x0020_81bb, "ADDW"),
        (0x1005_22af, "LR.W"),
        (0x1875_232f, "SC.W"),
        (0x0075_22af, "AMOADD.W"),
        (0xe075_32af, "AMOMAXU.D"),
        (0x1820_81d3, "FDIV.S"),
        (0x2220_91d3, "FSGNJN.D"),
        (0xe000_81d3, "FMV.X.W"),
        (0x3020_0073, "MRET"),
        (0x43f0_d193, "SRAI"),
        (0x4040_d19b, "SRAIW"),
        (0x0000_100f, "FENCE.I"),
        (0x0010_0073, "EBREAK"),
    ];
    for (word, name) in names {
        assert_eq!(decode(word).map(|i| i.name), Some(name), "word {:#x}", word);
    }
}

#[test]
fn decoder_operations() {
    assert_eq!(decode(0x0220_c1b3).unwrap().operation, Op::Reg(AluOp::Div));
    assert_eq!(decode(0x4020_81b3).unwrap().operation, Op::Reg(AluOp::Sub));
    assert!(decode(0x6020_81b3).is_none()); // unknown funct7
    assert!(decode(0).is_none());
    assert!(decode(0x0000_1067).is_none()); // jalr with funct3 != 0
}
