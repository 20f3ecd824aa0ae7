use rv64core::cpu::Cpu;
use rv64core::decode::decode;
use rv64core::instruction::parse_format_csr;
use rv64core::semantics::Event;

fn memory_of_words(words: &[u32]) -> Vec<u8> {
    let mut m = Vec::new();
    for w in words {
        m.extend_from_slice(&w.to_le_bytes());
    }
    m
}

#[test]
fn babys_first_instruction() {
    let mut cpu = Cpu::new();
    let mut memory = memory_of_words(&[0x00000505]); // c.addi a0, 1
    cpu.update_pc(0);
    let pc1 = cpu.get_pc();
    assert_eq!(cpu.x[10], 0);
    cpu.tick(&mut memory).ok().expect("cpu failure");
    assert_eq!(cpu.x[10], 1);
    let pc2 = cpu.get_pc();
    assert_eq!(2, pc2 - pc1);
}

#[test]
fn two_compressed_instruction() {
    let mut cpu = Cpu::new();
    // fetch reads 32 bits, so the word after the program must lie in memory too
    let mut memory = memory_of_words(&[0x05050505, 0]);
    cpu.update_pc(0);
    let pc1 = cpu.get_pc();
    assert_eq!(cpu.x[10], 0);
    cpu.tick(&mut memory).ok().expect("cpu failure");
    assert_eq!(cpu.x[10], 1);
    cpu.tick(&mut memory).ok().expect("cpu failure");
    assert_eq!(cpu.x[10], 2);
    let pc2 = cpu.get_pc();
    assert_eq!(4, pc2 - pc1);
}

#[test]
fn decode_frcsr() {
    // frcsr is a pseudo-instruction: csrrs a0, fcsr, x0
    let inst = Cpu::decode(0x00302573);
    assert!(inst.is_some());
    assert_eq!("CSRRS", inst.unwrap().name);
    let f = parse_format_csr(0x00302573);
    assert_eq!(3, f.csr);
    assert_eq!(0, f.rs);
    assert_eq!(10, f.rd);
}

#[test]
fn decode_module_agrees_with_cpu_decode() {
    assert_eq!(decode(0x00302573).unwrap().name, "CSRRS");
    assert!(decode(0).is_none());
    assert!(decode(0xffff_ffff).is_none());
}

#[test]
fn tick_returns_retired_for_plain_instruction() {
    let mut cpu = Cpu::new();
    let mut memory = memory_of_words(&[0x00000505]);
    assert_eq!(cpu.tick(&mut memory), Ok(Event::Retired));
}

#[test]
fn compressed_instruction_in_last_two_bytes_faults() {
    let mut cpu = Cpu::new();
    let mut memory = vec![0x05u8, 0x05];
    let t = cpu.tick(&mut memory).unwrap_err();
    assert_eq!(t.trap_type, rv64core::trap::TrapType::InstructionAccessFault);
    assert_eq!(t.value, 0);
    assert_eq!(cpu.get_pc(), 0);
    assert_eq!(cpu.x[10], 0);
}
