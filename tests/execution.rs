use rv64core::alu::{alu, alu_w, branch};
use rv64core::cpu::{Cpu, Xlen};
use rv64core::instruction::{AluOp, AluWOp, BranchOp};
use rv64core::semantics::Event;

fn program(words: &[u32], size: usize) -> Vec<u8> {
    let mut m = vec![0u8; size];
    for (k, w) in words.iter().enumerate() {
        m[4 * k..4 * k + 4].copy_from_slice(&w.to_le_bytes());
    }
    m
}

#[test]
fn multiply_high_parts() {
    assert_eq!(alu(AluOp::Mul, 3, -4), -12);
    assert_eq!(alu(AluOp::Mulh, i64::MIN, i64::MIN), 0x4000_0000_0000_0000);
    assert_eq!(alu(AluOp::Mulh, -1, 1), -1);
    assert_eq!(alu(AluOp::Mulhu, -1, -1), -2); // 0xffff_ffff_ffff_fffe
    assert_eq!(alu(AluOp::Mulhsu, -1, -1), -1);
    assert_eq!(alu(AluOp::Mulhsu, 2, -1), 1);
}

#[test]
fn division_rules() {
    assert_eq!(alu(AluOp::Div, 7, 0), -1);
    assert_eq!(alu(AluOp::Divu, 7, 0), -1);
    assert_eq!(alu(AluOp::Rem, 7, 0), 7);
    assert_eq!(alu(AluOp::Remu, -7, 0), -7);
    assert_eq!(alu(AluOp::Div, -7, 2), -3);
    assert_eq!(alu(AluOp::Rem, -7, 2), -1);
    assert_eq!(alu(AluOp::Rem, i64::MIN, -1), 0);
    assert_eq!(alu(AluOp::Divu, -1, 2), i64::MAX);
    assert_eq!(alu_w(AluWOp::Div, i32::MIN as i64, -1), i32::MIN as i64);
    assert_eq!(alu_w(AluWOp::Rem, i32::MIN as i64, -1), 0);
    assert_eq!(alu_w(AluWOp::Divu, 0x1_0000_0007, 0), -1);
    assert_eq!(alu_w(AluWOp::Remu, 0xffff_ffff, 0), -1);
    assert_eq!(alu_w(AluWOp::Div, -7, 2), -3);
}

#[test]
fn shifts_use_masked_amounts() {
    assert_eq!(alu(AluOp::Sll, 1, 65), 2);
    assert_eq!(alu(AluOp::Srl, -1, 60), 0xf);
    assert_eq!(alu(AluOp::Sra, -16, 2), -4);
    assert_eq!(alu_w(AluWOp::Sll, 1, 31), i32::MIN as i64);
    assert_eq!(alu_w(AluWOp::Srl, -1, 36), 0x0fff_ffff);
    assert_eq!(alu_w(AluWOp::Sra, 0x8000_0000, 4), 0xf800_0000u32 as i32 as i64);
    assert_eq!(alu_w(AluWOp::Mul, 0x10000, 0x10000), 0);
}

#[test]
fn comparisons() {
    assert_eq!(alu(AluOp::Slt, -1, 0), 1);
    assert_eq!(alu(AluOp::Sltu, -1, 0), 0);
    assert!(branch(BranchOp::Ltu, 1, -1));
    assert!(!branch(BranchOp::Lt, 1, -1));
    assert!(branch(BranchOp::Geu, -1, 1));
    assert!(branch(BranchOp::Ne, 1, 2));
}

#[test]
fn wrapping_add_and_sub() {
    assert_eq!(alu(AluOp::Add, i64::MAX, 1), i64::MIN);
    assert_eq!(alu(AluOp::Sub, i64::MIN, 1), i64::MAX);
    assert_eq!(alu_w(AluWOp::Sub, 0, 1), -1);
}

#[test]
fn branch_taken_is_relative_to_instruction() {
    let mut cpu = Cpu::new();
    // at 0x10: beq x1, x2, -16
    let mut m = program(&[0x13, 0x13, 0x13, 0x13, 0xfe20_88e3], 32);
    cpu.update_pc(0x10);
    cpu.x[1] = 5;
    cpu.x[2] = 5;
    cpu.tick(&mut m).unwrap();
    assert_eq!(cpu.get_pc(), 0);
    cpu.update_pc(0x10);
    cpu.x[2] = 6;
    cpu.tick(&mut m).unwrap();
    assert_eq!(cpu.get_pc(), 0x14);
}

#[test]
fn jal_and_jalr_link() {
    let mut cpu = Cpu::new();
    // jal x1, 2048 at 0; jalr x1, 3(x2) at 2048
    let mut m = vec![0u8; 4096];
    m[0..4].copy_from_slice(&0x0010_00efu32.to_le_bytes());
    m[2048..2052].copy_from_slice(&0x0031_00e7u32.to_le_bytes());
    cpu.tick(&mut m).unwrap();
    assert_eq!(cpu.x[1], 4);
    assert_eq!(cpu.get_pc(), 2048);
    cpu.x[2] = 0x100;
    cpu.tick(&mut m).unwrap();
    assert_eq!(cpu.x[1], 2052);
    assert_eq!(cpu.get_pc(), 0x102);
}

#[test]
fn lui_and_auipc() {
    let mut cpu = Cpu::new();
    let mut m = program(&[0x8000_02b7, 0x0000_1297], 16);
    cpu.tick(&mut m).unwrap();
    assert_eq!(cpu.x[5], 0xffff_ffff_8000_0000u64 as i64);
    cpu.tick(&mut m).unwrap();
    assert_eq!(cpu.x[5], 0x1004);
}

#[test]
fn shift_immediates() {
    let mut cpu = Cpu::new();
    // srai x3, x1, 63; srliw x3, x1, 4 (into x4 below); sraiw x3, x1, 4
    let mut m = program(&[0x43f0_d193, 0x0040_d19b, 0x4040_d19b], 16);
    cpu.x[1] = i64::MIN;
    cpu.tick(&mut m).unwrap();
    assert_eq!(cpu.x[3], -1);
    cpu.x[1] = 0x8000_0000;
    cpu.tick(&mut m).unwrap();
    assert_eq!(cpu.x[3], 0x0800_0000);
    cpu.tick(&mut m).unwrap();
    assert_eq!(cpu.x[3], 0xf800_0000u32 as i32 as i64);
}

#[test]
fn amo_add_word_and_maxu_double() {
    let mut cpu = Cpu::new();
    // amoadd.w x5, x7, (x10); amomaxu.d x5, x7, (x10)
    let mut m = program(&[0x0075_22af, 0xe075_32af], 0x100);
    m[0x80..0x84].copy_from_slice(&0xffff_fffeu32.to_le_bytes());
    cpu.x[10] = 0x80;
    cpu.x[7] = 3;
    cpu.tick(&mut m).unwrap();
    assert_eq!(cpu.x[5], -2);
    assert_eq!(&m[0x80..0x84], &1u32.to_le_bytes());
    cpu.x[7] = -1;
    cpu.tick(&mut m).unwrap();
    assert_eq!(cpu.x[5], 1);
    assert_eq!(&m[0x80..0x88], &u64::MAX.to_le_bytes());
}

#[test]
fn csr_masked_views() {
    let mut cpu = Cpu::new();
    cpu.write_csr(0x300, 0x1234_5678_9abc_def0);
    cpu.write_csr(0x100, u64::MAX);
    assert_eq!(cpu.read_csr(0x300), 0x1234_5678_9abc_def0 | 0x8000_0003_000d_e162);
    assert_eq!(cpu.read_csr(0x100), 0x8000_0003_000d_e162);
    cpu.write_csr(0x100, 0);
    assert_eq!(cpu.read_csr(0x300), 0x1234_5678_9abc_def0 & !0x8000_0003_000d_e162);
    cpu.write_csr(0x104, u64::MAX);
    assert_eq!(cpu.read_csr(0x304), 0x222);
    assert_eq!(cpu.read_csr(0x104), 0x222);
    cpu.write_csr(0x144, 0x2);
    assert_eq!(cpu.read_csr(0x344), 0x2);
    cpu.write_csr(0x303, u64::MAX);
    assert_eq!(cpu.read_csr(0x303), 0x666);
    cpu.write_csr(0x7c0, 42);
    assert_eq!(cpu.read_csr(0x7c0), 42);
}

#[test]
fn fflags_and_frm_share_fcsr() {
    let mut cpu = Cpu::new();
    cpu.write_csr(0x002, 0b101);
    cpu.write_csr(0x001, 0b11111);
    assert_eq!(cpu.read_csr(0x003), 0b101_11111);
    cpu.write_csr(0x001, 0);
    assert_eq!(cpu.read_csr(0x002), 0b101);
    cpu.set_fcsr_dz();
    cpu.set_fcsr_nv();
    assert_eq!(cpu.read_csr(0x001), 0b11000);
}

#[test]
fn csr_instructions_read_then_write() {
    let mut cpu = Cpu::new();
    // csrrw x5, sstatus, x6; csrrs x5, mstatus, x0
    let mut m = program(&[0x1003_12f3, 0x3000_22f3], 16);
    cpu.csr[0x300] = 0x8;
    cpu.x[6] = -1;
    cpu.tick(&mut m).unwrap();
    assert_eq!(cpu.x[5], 0);
    cpu.tick(&mut m).unwrap();
    assert_eq!(cpu.x[5] as u64, 0x8 | 0x8000_0003_000d_e162);
}

#[test]
fn mret_restores_pc_and_status() {
    let mut cpu = Cpu::new();
    let mut m = program(&[0x3020_0073], 16);
    cpu.csr[0x341] = 0x40;
    cpu.csr[0x300] = 0x80 | 0x1800 | 0x20000; // MPIE, MPP, MPRV
    assert_eq!(cpu.tick(&mut m), Ok(Event::Retired));
    assert_eq!(cpu.get_pc(), 0x40);
    assert_eq!(cpu.read_csr(0x300), 0x88); // MIE <- MPIE, MPIE <- 1, MPP and MPRV cleared
}

#[test]
fn width_helpers() {
    let mut cpu = Cpu::new();
    assert_eq!(cpu.sign_extend(0x1_8000_0000), 0x1_8000_0000);
    assert_eq!(cpu.most_negative(), i64::MIN);
    assert_eq!(cpu.unsigned_data(-1), u64::MAX);
    cpu.xlen = Xlen::Bit32;
    assert_eq!(cpu.sign_extend(0x1_8000_0000), -0x8000_0000);
    assert_eq!(cpu.most_negative(), i32::MIN as i64);
    assert_eq!(cpu.unsigned_data(-1), 0xffff_ffff);
}

#[test]
fn sign_injection_and_moves() {
    let mut cpu = Cpu::new();
    // fsgnjn.d f3, f1, f2; fmv.x.w x3, f1
    let mut m = program(&[0x2220_91d3, 0xe000_81d3], 16);
    cpu.f[1] = 2.0f64.to_bits();
    cpu.f[2] = (-1.0f64).to_bits();
    cpu.tick(&mut m).unwrap();
    assert_eq!(f64::from_bits(cpu.f[3]), 2.0);
    cpu.f[1] = 0xffff_ffff_ffc0_0000;
    cpu.tick(&mut m).unwrap();
    assert_eq!(cpu.x[3], 0x7fc0_0000);
}
