use vstd::prelude::*;
use crate::trap::{Trap, TrapType};

verus! {

/// Whether an access of `n` bytes at `address` lies inside a store of `len` bytes.
pub open spec fn in_bounds(len: nat, address: u64, n: int) -> bool {
    address + n <= len
}

/// The little-endian unsigned value of the `n` bytes of `m` at `a` (`n` is 1, 2, 4 or 8).
pub open spec fn load_le(m: Seq<u8>, a: int, n: int) -> int {
    if n == 1 {
        m[a] as int
    } else if n == 2 {
        m[a] + 0x100 * m[a + 1]
    } else if n == 4 {
        m[a] + 0x100 * m[a + 1] + 0x1_0000 * m[a + 2] + 0x100_0000 * m[a + 3]
    } else {
        m[a] + 0x100 * m[a + 1] + 0x1_0000 * m[a + 2] + 0x100_0000 * m[a + 3] + 0x1_0000_0000 * m[a
            + 4] + 0x100_0000_0000 * m[a + 5] + 0x1_0000_0000_0000 * m[a + 6] + 0x100_0000_0000_0000
            * m[a + 7]
    }
}

/// The eight bytes of `v`, least significant first.
pub open spec fn le_bytes(v: u64) -> Seq<u8> {
    seq![
        v as u8,
        (v >> 8u64) as u8,
        (v >> 16u64) as u8,
        (v >> 24u64) as u8,
        (v >> 32u64) as u8,
        (v >> 40u64) as u8,
        (v >> 48u64) as u8,
        (v >> 56u64) as u8,
    ]
}

/// `m` after the low `n` bytes of `v` are written little-endian at `a`.
pub open spec fn store_le(m: Seq<u8>, a: int, v: u64, n: int) -> Seq<u8> {
    Seq::new(m.len(), |i: int| if a <= i < a + n { le_bytes(v)[i - a] } else { m[i] })
}

pub open spec fn load_fault(address: u64) -> Trap {
    Trap { trap_type: TrapType::LoadAccessFault, value: address }
}

pub open spec fn store_fault(address: u64) -> Trap {
    Trap { trap_type: TrapType::StoreAccessFault, value: address }
}

/// The result of reading `n` bytes at `address`: the little-endian value, or a
/// load access fault carrying the address.
pub open spec fn load_result(m: Seq<u8>, address: u64, n: int) -> Result<int, Trap> {
    if in_bounds(m.len(), address, n) {
        Ok(load_le(m, address as int, n))
    } else {
        Err(load_fault(address))
    }
}

/// The store after writing `n` bytes of `value` at `address`, or the store
/// unchanged when the access lies outside it.
pub open spec fn store_result(m: Seq<u8>, address: u64, value: u64, n: int) -> Seq<u8> {
    if in_bounds(m.len(), address, n) {
        store_le(m, address as int, value, n)
    } else {
        m
    }
}

pub open spec fn store_outcome(m: Seq<u8>, address: u64, n: int) -> Result<(), Trap> {
    if in_bounds(m.len(), address, n) {
        Ok(())
    } else {
        Err(store_fault(address))
    }
}

/// Typed little-endian access to a byte-addressable store. Every access that
/// does not lie wholly inside the store fails with an access fault carrying
/// the address, and a failed write leaves the store unchanged.
pub trait Memory {
    /// The bytes of the store.
    spec fn bytes(&self) -> Seq<u8>;

    fn read_i8(&self, address: u64) -> (r: Result<i8, Trap>)
        ensures
            match load_result(self.bytes(), address, 1) {
                Ok(v) => r == Ok::<i8, Trap>(v as i8),
                Err(t) => r == Err::<i8, Trap>(t),
            },
    ;

    fn read_u8(&self, address: u64) -> (r: Result<u8, Trap>)
        ensures
            match load_result(self.bytes(), address, 1) {
                Ok(v) => r == Ok::<u8, Trap>(v as u8),
                Err(t) => r == Err::<u8, Trap>(t),
            },
    ;

    fn read_i16(&self, address: u64) -> (r: Result<i16, Trap>)
        ensures
            match load_result(self.bytes(), address, 2) {
                Ok(v) => r == Ok::<i16, Trap>(v as i16),
                Err(t) => r == Err::<i16, Trap>(t),
            },
    ;

    fn read_u16(&self, address: u64) -> (r: Result<u16, Trap>)
        ensures
            match load_result(self.bytes(), address, 2) {
                Ok(v) => r == Ok::<u16, Trap>(v as u16),
                Err(t) => r == Err::<u16, Trap>(t),
            },
    ;

    fn read_i32(&self, address: u64) -> (r: Result<i32, Trap>)
        ensures
            match load_result(self.bytes(), address, 4) {
                Ok(v) => r == Ok::<i32, Trap>(v as i32),
                Err(t) => r == Err::<i32, Trap>(t),
            },
    ;

    fn read_u32(&self, address: u64) -> (r: Result<u32, Trap>)
        ensures
            match load_result(self.bytes(), address, 4) {
                Ok(v) => r == Ok::<u32, Trap>(v as u32),
                Err(t) => r == Err::<u32, Trap>(t),
            },
    ;

    fn read_i64(&self, address: u64) -> (r: Result<i64, Trap>)
        ensures
            match load_result(self.bytes(), address, 8) {
                Ok(v) => r == Ok::<i64, Trap>(v as i64),
                Err(t) => r == Err::<i64, Trap>(t),
            },
    ;

    fn read_u64(&self, address: u64) -> (r: Result<u64, Trap>)
        ensures
            match load_result(self.bytes(), address, 8) {
                Ok(v) => r == Ok::<u64, Trap>(v as u64),
                Err(t) => r == Err::<u64, Trap>(t),
            },
    ;

    fn write_u8(&mut self, address: u64, value: u8) -> (r: Result<(), Trap>)
        ensures
            r == store_outcome(old(self).bytes(), address, 1),
            final(self).bytes() == store_result(old(self).bytes(), address, value as u64, 1),
    ;

    fn write_u16(&mut self, address: u64, value: u16) -> (r: Result<(), Trap>)
        ensures
            r == store_outcome(old(self).bytes(), address, 2),
            final(self).bytes() == store_result(old(self).bytes(), address, value as u64, 2),
    ;

    fn write_u32(&mut self, address: u64, value: u32) -> (r: Result<(), Trap>)
        ensures
            r == store_outcome(old(self).bytes(), address, 4),
            final(self).bytes() == store_result(old(self).bytes(), address, value as u64, 4),
    ;

    fn write_u64(&mut self, address: u64, value: u64) -> (r: Result<(), Trap>)
        ensures
            r == store_outcome(old(self).bytes(), address, 8),
            final(self).bytes() == store_result(old(self).bytes(), address, value, 8),
    ;
}


/// Whether `address .. address + n` lies inside a store of `len` bytes.
fn fits(len: usize, address: u64, n: u64) -> (r: bool)
    requires
        1 <= n <= 8,
    ensures
        r == in_bounds(len as nat, address, n as int),
{
    let len = len as u64;
    n <= len && address <= len - n
}

/// Reads `n` bytes at `a` as a little-endian unsigned value.
fn load_bytes(m: &Vec<u8>, a: usize, n: usize) -> (v: u64)
    requires
        n == 1 || n == 2 || n == 4 || n == 8,
        a + n <= m.len(),
    ensures
        v == load_le(m@, a as int, n as int),
{
    let b0 = m[a] as u64;
    if n == 1 {
        return b0;
    }
    let v2 = b0 + m[a + 1] as u64 * 0x100;
    if n == 2 {
        return v2;
    }
    let v4 = v2 + m[a + 2] as u64 * 0x1_0000 + m[a + 3] as u64 * 0x100_0000;
    if n == 4 {
        return v4;
    }
    v4 + m[a + 4] as u64 * 0x1_0000_0000 + m[a + 5] as u64 * 0x100_0000_0000 + m[a + 6] as u64
        * 0x1_0000_0000_0000 + m[a + 7] as u64 * 0x100_0000_0000_0000
}

/// Writes the low `n` bytes of `v` little-endian at `a`.
fn store_bytes(m: &mut Vec<u8>, a: usize, v: u64, n: usize)
    requires
        n == 1 || n == 2 || n == 4 || n == 8,
        a + n <= old(m).len(),
    ensures
        final(m)@ == store_le(old(m)@, a as int, v, n as int),
{
    let ghost m0 = m@;
    let mut k: usize = 0;
    while k < n
        invariant
            n == 1 || n == 2 || n == 4 || n == 8,
            a + n <= m.len(),
            k <= n,
            m@.len() == m0.len(),
            forall|i: int|
                0 <= i < m0.len() ==> #[trigger] m@[i] == (if a <= i < a + k {
                    le_bytes(v)[i - a]
                } else {
                    m0[i]
                }),
        decreases n - k,
    {
        let byte = (v >> (8 * k as u64)) as u8;
        proof {
            lemma_le_byte(v, k as int);
        }
        m.set(a + k, byte);
        k = k + 1;
    }
    assert(m@ =~= store_le(m0, a as int, v, n as int));
}

/// The byte of `v` at position `k` is `v >> 8k`, truncated.
proof fn lemma_le_byte(v: u64, k: int)
    requires
        0 <= k < 8,
    ensures
        le_bytes(v)[k] == (v >> (8 * k) as u64) as u8,
{
    if k == 0 {
        assert((v >> 0u64) == v) by (bit_vector);
    }
}

/// The low `n` bytes of `v` as an unsigned value (`n` is 1, 2, 4 or 8).
pub open spec fn low_bytes(v: u64, n: int) -> int {
    if n == 1 {
        v as u8 as int
    } else if n == 2 {
        v as u16 as int
    } else if n == 4 {
        v as u32 as int
    } else {
        v as int
    }
}

/// Writing a value of width 1, 2, 4 or 8 bytes at an address inside the store and
/// reading the same width back at that address gives the value (its low bytes).
pub proof fn lemma_store_then_load(m: Seq<u8>, address: u64, v: u64, n: int)
    requires
        n == 1 || n == 2 || n == 4 || n == 8,
        in_bounds(m.len(), address, n),
    ensures
        store_outcome(m, address, n) == Ok::<(), Trap>(()),
        load_result(store_result(m, address, v, n), address, n) == Ok::<int, Trap>(low_bytes(v, n)),
{
    let s = store_result(m, address, v, n);
    let a = address as int;
    let b = le_bytes(v);
    assert forall|k: int| 0 <= k < n implies #[trigger] s[a + k] == b[k] by {}
    let b0 = v as u8;
    let b1 = (v >> 8u64) as u8;
    let b2 = (v >> 16u64) as u8;
    let b3 = (v >> 24u64) as u8;
    let b4 = (v >> 32u64) as u8;
    let b5 = (v >> 40u64) as u8;
    let b6 = (v >> 48u64) as u8;
    let b7 = (v >> 56u64) as u8;
    assert(b0 == v as u8 && b0 + 0x100 * b1 == v as u16 && b0 + 0x100 * b1 + 0x1_0000 * b2
        + 0x100_0000 * b3 == v as u32 && b0 + 0x100 * b1 + 0x1_0000 * b2 + 0x100_0000 * b3
        + 0x1_0000_0000 * b4 + 0x100_0000_0000 * b5 + 0x1_0000_0000_0000 * b6
        + 0x100_0000_0000_0000 * b7 == v) by (bit_vector)
        requires
            b0 == v as u8,
            b1 == (v >> 8u64) as u8,
            b2 == (v >> 16u64) as u8,
            b3 == (v >> 24u64) as u8,
            b4 == (v >> 32u64) as u8,
            b5 == (v >> 40u64) as u8,
            b6 == (v >> 48u64) as u8,
            b7 == (v >> 56u64) as u8,
    ;
    assert(s[a] == b0 && b[0] == b0);
    if n >= 2 {
        assert(s[a + 1] == b1);
    }
    if n >= 4 {
        assert(s[a + 2] == b2 && s[a + 3] == b3);
    }
    if n == 8 {
        assert(s[a + 4] == b4 && s[a + 5] == b5 && s[a + 6] == b6 && s[a + 7] == b7);
    }
}

impl Memory for Vec<u8> {
    open spec fn bytes(&self) -> Seq<u8> {
        self@
    }

    fn read_i8(&self, address: u64) -> (r: Result<i8, Trap>) {
        if fits(self.len(), address, 1) {
            Ok(load_bytes(self, address as usize, 1) as i8)
        } else {
            Err(Trap { trap_type: TrapType::LoadAccessFault, value: address })
        }
    }

    fn read_u8(&self, address: u64) -> (r: Result<u8, Trap>) {
        if fits(self.len(), address, 1) {
            Ok(load_bytes(self, address as usize, 1) as u8)
        } else {
            Err(Trap { trap_type: TrapType::LoadAccessFault, value: address })
        }
    }

    fn read_i16(&self, address: u64) -> (r: Result<i16, Trap>) {
        if fits(self.len(), address, 2) {
            Ok(load_bytes(self, address as usize, 2) as i16)
        } else {
            Err(Trap { trap_type: TrapType::LoadAccessFault, value: address })
        }
    }

    fn read_u16(&self, address: u64) -> (r: Result<u16, Trap>) {
        if fits(self.len(), address, 2) {
            Ok(load_bytes(self, address as usize, 2) as u16)
        } else {
            Err(Trap { trap_type: TrapType::LoadAccessFault, value: address })
        }
    }

    fn read_i32(&self, address: u64) -> (r: Result<i32, Trap>) {
        if fits(self.len(), address, 4) {
            Ok(load_bytes(self, address as usize, 4) as i32)
        } else {
            Err(Trap { trap_type: TrapType::LoadAccessFault, value: address })
        }
    }

    fn read_u32(&self, address: u64) -> (r: Result<u32, Trap>) {
        if fits(self.len(), address, 4) {
            Ok(load_bytes(self, address as usize, 4) as u32)
        } else {
            Err(Trap { trap_type: TrapType::LoadAccessFault, value: address })
        }
    }

    fn read_i64(&self, address: u64) -> (r: Result<i64, Trap>) {
        if fits(self.len(), address, 8) {
            Ok(load_bytes(self, address as usize, 8) as i64)
        } else {
            Err(Trap { trap_type: TrapType::LoadAccessFault, value: address })
        }
    }

    fn read_u64(&self, address: u64) -> (r: Result<u64, Trap>) {
        if fits(self.len(), address, 8) {
            Ok(load_bytes(self, address as usize, 8) as u64)
        } else {
            Err(Trap { trap_type: TrapType::LoadAccessFault, value: address })
        }
    }

    fn write_u8(&mut self, address: u64, value: u8) -> (r: Result<(), Trap>) {
        if fits(self.len(), address, 1) {
            store_bytes(self, address as usize, value as u64, 1);
            Ok(())
        } else {
            Err(Trap { trap_type: TrapType::StoreAccessFault, value: address })
        }
    }

    fn write_u16(&mut self, address: u64, value: u16) -> (r: Result<(), Trap>) {
        if fits(self.len(), address, 2) {
            store_bytes(self, address as usize, value as u64, 2);
            Ok(())
        } else {
            Err(Trap { trap_type: TrapType::StoreAccessFault, value: address })
        }
    }

    fn write_u32(&mut self, address: u64, value: u32) -> (r: Result<(), Trap>) {
        if fits(self.len(), address, 4) {
            store_bytes(self, address as usize, value as u64, 4);
            Ok(())
        } else {
            Err(Trap { trap_type: TrapType::StoreAccessFault, value: address })
        }
    }

    fn write_u64(&mut self, address: u64, value: u64) -> (r: Result<(), Trap>) {
        if fits(self.len(), address, 8) {
            store_bytes(self, address as usize, value as u64, 8);
            Ok(())
        } else {
            Err(Trap { trap_type: TrapType::StoreAccessFault, value: address })
        }
    }
}

} // verus!
