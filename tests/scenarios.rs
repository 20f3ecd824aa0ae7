use rv64core::cpu::Cpu;
use rv64core::instruction::{FloatOp, Width};
use rv64core::semantics::{Event, FloatValue};
use rv64core::trap::TrapType;

fn program(words: &[u32], size: usize) -> Vec<u8> {
    let mut m = vec![0u8; size];
    for (k, w) in words.iter().enumerate() {
        m[4 * k..4 * k + 4].copy_from_slice(&w.to_le_bytes());
    }
    m
}

#[test]
fn addi_with_negative_immediate() {
    let mut cpu = Cpu::new();
    let mut m = program(&[0xfff5_0513], 16); // addi a0, a0, -1
    cpu.x[10] = 1;
    assert_eq!(cpu.tick(&mut m), Ok(Event::Retired));
    assert_eq!(cpu.x[10], 0);
    assert_eq!(cpu.get_pc(), 4);
}

#[test]
fn lr_sc_then_second_sc_fails() {
    let mut cpu = Cpu::new();
    // lr.w x5, (x10); sc.w x6, x7, (x10); sc.w x6, x7, (x10)
    let mut m = program(&[0x1005_22af, 0x1875_232f, 0x1875_232f], 0x200);
    m[0x100..0x104].copy_from_slice(&0xdead_beefu32.to_le_bytes());
    cpu.x[10] = 0x100;
    cpu.x[7] = 0x1234_5678;
    cpu.tick(&mut m).unwrap();
    assert_eq!(cpu.x[5], 0xdead_beefu32 as i32 as i64);
    assert_eq!(cpu.reservation, Some(0x100));
    cpu.tick(&mut m).unwrap();
    assert_eq!(cpu.x[6], 0);
    assert_eq!(&m[0x100..0x104], &0x1234_5678u32.to_le_bytes());
    cpu.x[7] = 0x0bad_f00d;
    cpu.tick(&mut m).unwrap();
    assert_eq!(cpu.x[6], 1);
    assert_eq!(&m[0x100..0x104], &0x1234_5678u32.to_le_bytes());
}

#[test]
fn sc_without_reservation_fails() {
    let mut cpu = Cpu::new();
    let mut m = program(&[0x1875_232f], 0x200);
    cpu.x[10] = 0x100;
    cpu.x[7] = 7;
    cpu.tick(&mut m).unwrap();
    assert_eq!(cpu.x[6], 1);
    assert_eq!(&m[0x100..0x104], &[0, 0, 0, 0]);
}

#[test]
fn div_overflow_gives_dividend() {
    let mut cpu = Cpu::new();
    let mut m = program(&[0x0220_c1b3], 16); // div x3, x1, x2
    cpu.x[1] = i64::MIN;
    cpu.x[2] = -1;
    assert_eq!(cpu.tick(&mut m), Ok(Event::Retired));
    assert_eq!(cpu.x[3], i64::MIN);
}

#[test]
fn fdiv_single_by_zero_is_handed_to_host_and_boxed() {
    let mut cpu = Cpu::new();
    let mut m = program(&[0x1820_81d3], 16); // fdiv.s f3, f1, f2
    cpu.set_f32(1, 1.0f32.to_bits());
    cpu.set_f32(2, 0.0f32.to_bits());
    let event = cpu.tick(&mut m).unwrap();
    let request = match event {
        Event::Float(r) => r,
        other => panic!("expected a float request, got {:?}", other),
    };
    assert_eq!(request.op, FloatOp::Div);
    assert_eq!(request.width, Width::Word);
    assert_eq!(request.rd, 3);
    assert_eq!(request.a, 0xffff_ffff_3f80_0000);
    assert_eq!(request.b, 0xffff_ffff_0000_0000);
    let quotient = f32::from_bits(request.a as u32) / f32::from_bits(request.b as u32);
    assert_eq!(quotient, f32::INFINITY);
    cpu.complete_float(3, FloatValue::Single(quotient.to_bits()), 8);
    assert_eq!(cpu.f[3], 0xffff_ffff_7f80_0000);
    assert_eq!(cpu.read_csr(0x001) & 8, 8);
    assert_eq!(cpu.read_csr(0x003) & 8, 8);
}

#[test]
fn fadd_single_request_and_boxed_result() {
    let mut cpu = Cpu::new();
    let mut m = program(&[0x0020_81d3], 16); // fadd.s f3, f1, f2
    cpu.set_f32(1, 1.5f32.to_bits());
    cpu.set_f32(2, 2.25f32.to_bits());
    let request = match cpu.tick(&mut m).unwrap() {
        Event::Float(r) => r,
        other => panic!("expected a float request, got {:?}", other),
    };
    assert_eq!(request.op, FloatOp::Add);
    let sum = f32::from_bits(request.a as u32) + f32::from_bits(request.b as u32);
    cpu.complete_float(request.rd, FloatValue::Single(sum.to_bits()), 0);
    assert_eq!(cpu.f[3], 0xffff_ffff_0000_0000 | 3.75f32.to_bits() as u64);
    assert_eq!(cpu.read_csr(0x001), 0);
}

#[test]
fn x0_stays_zero() {
    let mut cpu = Cpu::new();
    let mut m = program(&[0x0050_0013], 16); // addi x0, x0, 5
    cpu.tick(&mut m).unwrap();
    assert_eq!(cpu.x[0], 0);
}

#[test]
fn float_integer_result_to_x0_is_dropped() {
    let mut cpu = Cpu::new();
    cpu.complete_float(0, FloatValue::Integer(5), 0);
    assert_eq!(cpu.x[0], 0);
    cpu.complete_float(4, FloatValue::Integer(-7), 16);
    assert_eq!(cpu.x[4], -7);
    assert_eq!(cpu.read_csr(0x001), 16);
}

#[test]
fn double_result_is_stored_unboxed() {
    let mut cpu = Cpu::new();
    cpu.complete_float(5, FloatValue::Double(2.5f64.to_bits()), 1);
    assert_eq!(cpu.f[5], 2.5f64.to_bits());
    assert_eq!(cpu.read_csr(0x001), 1);
}

#[test]
fn addw_sign_extends_the_low_word() {
    let mut cpu = Cpu::new();
    let mut m = program(&[0x0020_81bb], 16); // addw x3, x1, x2
    cpu.x[1] = 0x7fff_ffff;
    cpu.x[2] = 1;
    cpu.tick(&mut m).unwrap();
    assert_eq!(cpu.x[3], -0x8000_0000);
    assert_eq!(cpu.x[3] as u64, 0xffff_ffff_8000_0000);
}

#[test]
fn single_writes_are_nan_boxed() {
    let mut cpu = Cpu::new();
    // fmv.w.x f2, x1; flw f4, 8(x10)
    let mut m = program(&[0xf000_8153, 0x0085_2207, 0x4049_0fdb], 16);
    cpu.x[1] = 0x1234_5678_3f80_0000;
    cpu.x[10] = 0;
    cpu.tick(&mut m).unwrap();
    assert_eq!(cpu.f[2], 0xffff_ffff_3f80_0000);
    cpu.tick(&mut m).unwrap();
    assert_eq!(cpu.f[4], 0xffff_ffff_4049_0fdb);
    assert_eq!(cpu.get_f32(4), 0x4049_0fdb);
}

#[test]
fn compressed_and_expanded_addi_agree() {
    let mut short = Cpu::new();
    let mut long = Cpu::new();
    let mut m_short = program(&[0x0000_0505], 16); // c.addi a0, 1
    let mut m_long = program(&[0x0015_0513], 16); // addi a0, a0, 1
    short.x[10] = 41;
    long.x[10] = 41;
    short.tick(&mut m_short).unwrap();
    long.tick(&mut m_long).unwrap();
    assert_eq!(short.x, long.x);
    assert_eq!(short.get_pc(), 2);
    assert_eq!(long.get_pc(), 4);
}

#[test]
fn illegal_compressed_word_traps_with_invalid_word() {
    let mut cpu = Cpu::new();
    let mut m = vec![0u8; 16];
    let t = cpu.tick(&mut m).unwrap_err();
    assert_eq!(t.trap_type, TrapType::IllegalInstruction);
    assert_eq!(t.value, 0xffff_ffff);
}

#[test]
fn illegal_word_traps_with_the_word() {
    let mut cpu = Cpu::new();
    let mut m = program(&[0x0000_707f], 16);
    let t = cpu.tick(&mut m).unwrap_err();
    assert_eq!(t.trap_type, TrapType::IllegalInstruction);
    assert_eq!(t.value, 0x707f);
}

#[test]
fn fetch_outside_memory_traps() {
    let mut cpu = Cpu::new();
    let mut m = vec![0u8; 16];
    cpu.update_pc(0x1000);
    let t = cpu.tick(&mut m).unwrap_err();
    assert_eq!(t.trap_type, TrapType::InstructionAccessFault);
    assert_eq!(t.value, 0x1000);
    assert_eq!(cpu.get_pc(), 0x1000);
}

#[test]
fn load_outside_memory_traps() {
    let mut cpu = Cpu::new();
    let mut m = program(&[0x0005_3283], 16); // ld x5, 0(x10)
    cpu.x[10] = 12;
    let t = cpu.tick(&mut m).unwrap_err();
    assert_eq!(t.trap_type, TrapType::LoadAccessFault);
    assert_eq!(t.value, 12);
    assert_eq!(cpu.x[5], 0);
}

#[test]
fn store_outside_memory_traps() {
    let mut cpu = Cpu::new();
    let mut m = program(&[0x0055_3023], 16); // sd x5, 0(x10)
    cpu.x[10] = 9;
    cpu.x[5] = -1;
    let t = cpu.tick(&mut m).unwrap_err();
    assert_eq!(t.trap_type, TrapType::StoreAccessFault);
    assert_eq!(t.value, 9);
    assert_eq!(&m[8..16], &[0u8; 8]);
}

#[test]
fn ecall_is_reported_to_the_host() {
    let mut cpu = Cpu::new();
    let mut m = program(&[0x0000_0013, 0x0000_0073], 16);
    cpu.tick(&mut m).unwrap();
    assert_eq!(cpu.tick(&mut m), Ok(Event::EnvironmentCall { word: 0x73, address: 4 }));
    assert_eq!(cpu.get_pc(), 8);
}

#[test]
fn time_advances_every_tick() {
    let mut cpu = Cpu::new();
    let mut m = program(&[0x0000_0013, 0x0000_0013], 16);
    cpu.tick(&mut m).unwrap();
    cpu.tick(&mut m).unwrap();
    assert_eq!(cpu.read_csr(0xc01), 2);
}
