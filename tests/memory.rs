use rv64core::memory::Memory;
use rv64core::trap::TrapType;

#[test]
fn round_trip_each_width() {
    let mut m = vec![0u8; 32];
    m.write_u8(3, 0xab).unwrap();
    assert_eq!(m.read_u8(3), Ok(0xab));
    assert_eq!(m.read_i8(3), Ok(0xabu8 as i8));
    m.write_u16(6, 0xbeef).unwrap();
    assert_eq!(m.read_u16(6), Ok(0xbeef));
    assert_eq!(m.read_i16(6), Ok(0xbeefu16 as i16));
    m.write_u32(9, 0x8765_4321).unwrap();
    assert_eq!(m.read_u32(9), Ok(0x8765_4321));
    assert_eq!(m.read_i32(9), Ok(0x8765_4321u32 as i32));
    m.write_u64(24, 0xfedc_ba98_7654_3210).unwrap();
    assert_eq!(m.read_u64(24), Ok(0xfedc_ba98_7654_3210));
    assert_eq!(m.read_i64(24), Ok(0xfedc_ba98_7654_3210u64 as i64));
}

#[test]
fn little_endian_layout() {
    let mut m = vec![0u8; 8];
    m.write_u32(0, 0x0403_0201).unwrap();
    assert_eq!(&m[0..4], &[1, 2, 3, 4]);
    assert_eq!(m.read_u16(1), Ok(0x0302));
}

#[test]
fn access_at_the_last_byte() {
    let mut m = vec![0u8; 8];
    assert!(m.write_u64(0, u64::MAX).is_ok());
    assert_eq!(m.read_u8(7), Ok(0xff));
    assert_eq!(m.read_u64(1).unwrap_err().trap_type, TrapType::LoadAccessFault);
}

#[test]
fn reads_outside_fault_with_address() {
    let m = vec![0u8; 4];
    let t = m.read_u32(1).unwrap_err();
    assert_eq!(t.trap_type, TrapType::LoadAccessFault);
    assert_eq!(t.value, 1);
    assert_eq!(m.read_i8(4).unwrap_err().value, 4);
    assert_eq!(m.read_u64(u64::MAX).unwrap_err().value, u64::MAX);
}

#[test]
fn writes_outside_fault_and_change_nothing() {
    let mut m = vec![7u8; 4];
    let t = m.write_u16(3, 0).unwrap_err();
    assert_eq!(t.trap_type, TrapType::StoreAccessFault);
    assert_eq!(t.value, 3);
    assert_eq!(m, vec![7u8; 4]);
    assert_eq!(m.write_u8(4, 0).unwrap_err().trap_type, TrapType::StoreAccessFault);
}
