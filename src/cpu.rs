//! The hart: architectural state, CSR file, fetch and the per-instruction executor.
use vstd::prelude::*;
use crate::alu::{alu, alu_w, branch};
use crate::compressed::uncompress;
use crate::decode::decode;
use crate::instruction::{
    parse_format_b, parse_format_csr, parse_format_i, parse_format_j, parse_format_r,
    parse_format_r2, parse_format_s, parse_format_u, AluOp, AluWOp, AmoOp, CsrOp, Instruction,
    LoadOp, Op, SignOp, StoreOp, Width,
};
use crate::memory::Memory;
use crate::semantics::{
    add64, amo_spec, box_single, csr_read, csr_write, execute_float, execute_memory,
    execute_register, execute_spec, fetch_spec, is_float_op, is_memory_op, sign_inject32,
    sign_inject64, step_spec, with_csr, with_f, with_pc, with_x, Event, FloatRequest, FloatValue,
    HartState, CANONICAL_NAN_SINGLE, CSR_FCSR, CSR_FFLAGS, CSR_FRM, CSR_MEPC, CSR_MIDELEG, CSR_MIE,
    CSR_MIP, CSR_MSTATUS, CSR_SIE, CSR_SIP, CSR_SSTATUS, CSR_TIME, MIDELEG_MASK, NAN_BOX,
    SSTATUS_MASK, SUPERVISOR_INTERRUPT_MASK,
};
use crate::trap::{Trap, TrapType};

verus! {

/// Number of CSR slots: every 12-bit CSR number has one.
pub const CSR_CAPACITY: usize = 4096;

/// Architectural register width.
#[derive(Clone, Copy, Debug, PartialEq, Eq, Structural)]
pub enum Xlen {
    Bit32,
    Bit64,
}

/// A RISC-V hart. Integer registers hold signed 64-bit words; FP registers
/// hold raw 64-bit IEEE patterns (a single-precision value in the low half,
/// the high half all ones).
#[derive(Debug)]
pub struct Cpu {
    pub pc: u64,
    pub x: [i64; 32],
    pub f: [u64; 32],
    pub xlen: Xlen,
    pub csr: [u64; CSR_CAPACITY],
    /// The address of the LR/SC reservation, when one is held.
    pub reservation: Option<u64>,
}

impl Cpu {
    /// The architectural state.
    pub open spec fn state(&self) -> HartState {
        HartState {
            pc: self.pc,
            x: self.x@,
            f: self.f@,
            csr: self.csr@,
            reservation: self.reservation,
        }
    }

    /// A hart with pc 0, every register and CSR zero and no reservation.
    pub fn new() -> (cpu: Cpu)
        ensures
            cpu.state() == (HartState {
                pc: 0,
                x: Seq::new(32, |i: int| 0i64),
                f: Seq::new(32, |i: int| 0u64),
                csr: Seq::new(4096, |i: int| 0u64),
                reservation: None,
            }),
            cpu.xlen == Xlen::Bit64,
    {
        let cpu = Cpu {
            pc: 0,
            x: [0i64; 32],
            f: [0u64; 32],
            xlen: Xlen::Bit64,
            csr: [0u64; CSR_CAPACITY],
            reservation: None,
        };
        assert(cpu.x@ =~= Seq::new(32, |i: int| 0i64));
        assert(cpu.f@ =~= Seq::new(32, |i: int| 0u64));
        assert(cpu.csr@ =~= Seq::new(4096, |i: int| 0u64));
        cpu
    }

    /// Sets the address of the next instruction.
    pub fn update_pc(&mut self, new_pc: u64)
        ensures
            final(self).state() == with_pc(old(self).state(), new_pc),
            final(self).xlen == old(self).xlen,
    {
        self.pc = new_pc;
    }

    pub fn get_pc(&self) -> (pc: u64)
        ensures
            pc == self.pc,
    {
        self.pc
    }

    /// The low 32 bits of FP register `reg`: its single-precision value.
    pub fn get_f32(&self, reg: usize) -> (bits: u32)
        requires
            reg < 32,
        ensures
            bits == self.f[reg as int] as u32,
    {
        self.f[reg] as u32
    }

    /// Writes a single-precision pattern to FP register `reg`, NaN-boxed.
    pub fn set_f32(&mut self, reg: usize, bits: u32)
        requires
            reg < 32,
        ensures
            final(self).state() == with_f(old(self).state(), reg as int, box_single(bits)),
            final(self).f[reg as int] >> 32u64 == 0xffff_ffffu64,
            final(self).xlen == old(self).xlen,
    {
        proof {
            lemma_boxed_high_half(bits);
        }
        self.f[reg] = NAN_BOX | (bits as u64);
    }

    /// `value` as a register of the architectural width sees it.
    pub fn sign_extend(&self, value: i64) -> (r: i64)
        ensures
            r == match self.xlen {
                Xlen::Bit32 => value as i32 as i64,
                Xlen::Bit64 => value,
            },
    {
        match self.xlen {
            Xlen::Bit32 => value as i32 as i64,
            Xlen::Bit64 => value,
        }
    }

    /// `value` as an unsigned number of the architectural width.
    pub fn unsigned_data(&self, value: i64) -> (r: u64)
        ensures
            r == match self.xlen {
                Xlen::Bit32 => (value as u64) & 0xffff_ffff,
                Xlen::Bit64 => value as u64,
            },
    {
        match self.xlen {
            Xlen::Bit32 => (value as u64) & 0xffff_ffff,
            Xlen::Bit64 => value as u64,
        }
    }

    /// The most negative signed number of the architectural width.
    pub fn most_negative(&self) -> (r: i64)
        ensures
            r == match self.xlen {
                Xlen::Bit32 => i32::MIN as i64,
                Xlen::Bit64 => i64::MIN,
            },
    {
        match self.xlen {
            Xlen::Bit32 => i32::MIN as i64,
            Xlen::Bit64 => i64::MIN,
        }
    }

    /// Reads CSR `address` through its masked view.
    pub fn read_csr(&self, address: u16) -> (r: u64)
        requires
            address < 4096,
        ensures
            r == csr_read(self.csr@, address),
    {
        if address == CSR_FFLAGS {
            self.read_fflags()
        } else if address == CSR_FRM {
            (self.csr[CSR_FCSR as usize] >> 5) & 0x7
        } else if address == CSR_FCSR {
            self.csr[CSR_FCSR as usize] & 0xff
        } else if address == CSR_SSTATUS {
            self.csr[CSR_MSTATUS as usize] & SSTATUS_MASK
        } else if address == CSR_SIE {
            self.csr[CSR_MIE as usize] & SUPERVISOR_INTERRUPT_MASK
        } else if address == CSR_SIP {
            self.csr[CSR_MIP as usize] & SUPERVISOR_INTERRUPT_MASK
        } else {
            self.csr[address as usize]
        }
    }

    /// Writes CSR `address` through its masked view: an aliased CSR replaces
    /// exactly its masked bits of the backing CSR.
    pub fn write_csr(&mut self, address: u16, value: u64)
        requires
            address < 4096,
        ensures
            final(self).state() == with_csr(
                old(self).state(),
                csr_write(old(self).csr@, address, value),
            ),
            final(self).xlen == old(self).xlen,
    {
        if address == CSR_FFLAGS {
            self.write_fflags(value);
        } else if address == CSR_FRM {
            let fcsr = self.csr[CSR_FCSR as usize];
            self.csr[CSR_FCSR as usize] = (fcsr & !0xe0u64) | ((value << 5) & 0xe0);
        } else if address == CSR_SSTATUS {
            let st = self.csr[CSR_MSTATUS as usize];
            self.csr[CSR_MSTATUS as usize] = (st & !SSTATUS_MASK) | (value & SSTATUS_MASK);
        } else if address == CSR_SIE {
            let ie = self.csr[CSR_MIE as usize];
            self.csr[CSR_MIE as usize] = (ie & !SUPERVISOR_INTERRUPT_MASK) | (value
                & SUPERVISOR_INTERRUPT_MASK);
        } else if address == CSR_SIP {
            let ip = self.csr[CSR_MIP as usize];
            self.csr[CSR_MIP as usize] = (ip & !SUPERVISOR_INTERRUPT_MASK) | (value
                & SUPERVISOR_INTERRUPT_MASK);
        } else if address == CSR_MIDELEG {
            self.csr[CSR_MIDELEG as usize] = value & MIDELEG_MASK;
        } else {
            self.csr[address as usize] = value;
        }
    }

    /// The accrued exception flags (NV, DZ, OF, UF, NX), held in `fcsr[4:0]`.
    fn read_fflags(&self) -> (r: u64)
        ensures
            r == csr_read(self.csr@, CSR_FFLAGS),
    {
        self.csr[CSR_FCSR as usize] & 0x1f
    }

    fn write_fflags(&mut self, value: u64)
        ensures
            final(self).state() == with_csr(
                old(self).state(),
                csr_write(old(self).csr@, CSR_FFLAGS, value),
            ),
            final(self).xlen == old(self).xlen,
    {
        let fcsr = self.csr[CSR_FCSR as usize];
        self.csr[CSR_FCSR as usize] = (fcsr & !0x1fu64) | (value & 0x1f);
    }

    /// Raises the divide-by-zero flag.
    pub fn set_fcsr_dz(&mut self)
        ensures
            final(self).state() == with_csr(
                old(self).state(),
                csr_write(old(self).csr@, CSR_FFLAGS, csr_read(old(self).csr@, CSR_FFLAGS) | 8),
            ),
            final(self).xlen == old(self).xlen,
    {
        let flags = self.read_fflags();
        self.write_fflags(flags | 8);
    }

    /// Raises the invalid-operation flag.
    pub fn set_fcsr_nv(&mut self)
        ensures
            final(self).state() == with_csr(
                old(self).state(),
                csr_write(old(self).csr@, CSR_FFLAGS, csr_read(old(self).csr@, CSR_FFLAGS) | 16),
            ),
            final(self).xlen == old(self).xlen,
    {
        let flags = self.read_fflags();
        self.write_fflags(flags | 16);
    }


    /// Register, CSR and control-flow instructions; `addr` is the address of
    /// the instruction and the pc already points past it.
    fn execute_register(&mut self, op: Op, word: u32, addr: u64) -> (r: Result<Event, Trap>)
        requires
            !is_memory_op(op),
            !is_float_op(op),
        ensures
            (final(self).state(), Seq::<u8>::empty(), r) == execute_register(
                old(self).state(),
                Seq::<u8>::empty(),
                op,
                word,
                addr,
            ),
            final(self).xlen == old(self).xlen,
    {
        let f = parse_format_r(word);
        let a = self.x[f.rs1];
        let b = self.x[f.rs2];
        match op {
            Op::Lui => {
                let u = parse_format_u(word);
                self.x[u.rd] = u.imm as i64;
            },
            Op::Auipc => {
                let u = parse_format_u(word);
                self.x[u.rd] = addr.wrapping_add(u.imm) as i64;
            },
            Op::Jal => {
                let j = parse_format_j(word);
                self.x[j.rd] = self.pc as i64;
                self.pc = addr.wrapping_add(j.imm);
            },
            Op::Jalr => {
                let i = parse_format_i(word);
                let target = (a as u64).wrapping_add(i.imm as u64) & !1u64;
                self.x[i.rd] = self.pc as i64;
                self.pc = target;
            },
            Op::Branch(c) => {
                let bf = parse_format_b(word);
                if branch(c, a, b) {
                    self.pc = addr.wrapping_add(bf.imm);
                }
            },
            Op::Imm(o) => {
                let i = parse_format_i(word);
                let operand = if o == AluOp::Sll || o == AluOp::Srl || o == AluOp::Sra {
                    ((word >> 20) & 0x3f) as i64
                } else {
                    i.imm
                };
                self.x[i.rd] = alu(o, a, operand);
            },
            Op::Reg(o) => {
                self.x[f.rd] = alu(o, a, b);
            },
            Op::ImmW(o) => {
                let i = parse_format_i(word);
                let operand = if o == AluWOp::Add {
                    i.imm
                } else {
                    ((word >> 20) & 0x1f) as i64
                };
                self.x[i.rd] = alu_w(o, a, operand);
            },
            Op::RegW(o) => {
                self.x[f.rd] = alu_w(o, a, b);
            },
            Op::Fence | Op::FenceI | Op::Ebreak => {},
            Op::Ecall => {
                return Ok(Event::EnvironmentCall { word, address: addr });
            },
            Op::Mret => {
                self.pc = self.read_csr(CSR_MEPC);
                let status = self.read_csr(CSR_MSTATUS);
                let mpie = (status >> 7) & 1;
                self.write_csr(CSR_MSTATUS, (status & !0x21888u64) | (mpie << 3) | 0x80);
            },
            Op::Csr(o) | Op::CsrImm(o) => {
                let c = parse_format_csr(word);
                let old = self.read_csr(c.csr);
                let operand = match op {
                    Op::Csr(_) => self.x[c.rs] as u64,
                    _ => c.rs as u64,
                };
                self.x[c.rd] = old as i64;
                let value = match o {
                    CsrOp::ReadWrite => operand,
                    CsrOp::ReadSet => old | operand,
                    CsrOp::ReadClear => old & !operand,
                };
                self.write_csr(c.csr, value);
            },
            _ => {
                return Err(Trap { trap_type: TrapType::IllegalInstruction, value: word as u64 });
            },
        }
        Ok(Event::Retired)
    }


    /// Loads, stores, LR/SC and AMOs.
    fn execute_memory<M: Memory>(&mut self, memory: &mut M, op: Op, word: u32) -> (r: Result<
        Event,
        Trap,
    >)
        requires
            is_memory_op(op),
        ensures
            (final(self).state(), final(memory).bytes(), r) == execute_memory(
                old(self).state(),
                old(memory).bytes(),
                op,
                word,
            ),
            final(self).xlen == old(self).xlen,
    {
        let f = parse_format_r(word);
        let a = self.x[f.rs1];
        let b = self.x[f.rs2];
        match op {
            Op::Load(l) => {
                let i = parse_format_i(word);
                let ea = (a as u64).wrapping_add(i.imm as u64);
                let loaded = match l {
                    LoadOp::Byte => match memory.read_i8(ea) {
                        Ok(v) => Ok(v as i64),
                        Err(t) => Err(t),
                    },
                    LoadOp::Half => match memory.read_i16(ea) {
                        Ok(v) => Ok(v as i64),
                        Err(t) => Err(t),
                    },
                    LoadOp::Word => match memory.read_i32(ea) {
                        Ok(v) => Ok(v as i64),
                        Err(t) => Err(t),
                    },
                    LoadOp::Double => memory.read_i64(ea),
                    LoadOp::ByteUnsigned => match memory.read_u8(ea) {
                        Ok(v) => Ok(v as i64),
                        Err(t) => Err(t),
                    },
                    LoadOp::HalfUnsigned => match memory.read_u16(ea) {
                        Ok(v) => Ok(v as i64),
                        Err(t) => Err(t),
                    },
                    LoadOp::WordUnsigned => match memory.read_u32(ea) {
                        Ok(v) => Ok(v as i64),
                        Err(t) => Err(t),
                    },
                };
                match loaded {
                    Ok(v) => {
                        self.x[i.rd] = v;
                        Ok(Event::Retired)
                    },
                    Err(t) => Err(t),
                }
            },
            Op::Store(st) => {
                let sf = parse_format_s(word);
                let ea = (a as u64).wrapping_add(sf.imm as u64);
                let v = b as u64;
                let done = match st {
                    StoreOp::Byte => memory.write_u8(ea, v as u8),
                    StoreOp::Half => memory.write_u16(ea, v as u16),
                    StoreOp::Word => memory.write_u32(ea, v as u32),
                    StoreOp::Double => memory.write_u64(ea, v),
                };
                match done {
                    Ok(_) => Ok(Event::Retired),
                    Err(t) => Err(t),
                }
            },
            Op::LoadReserved(w) => {
                let ea = a as u64;
                let loaded = match w {
                    Width::Word => match memory.read_i32(ea) {
                        Ok(v) => Ok(v as i64),
                        Err(t) => Err(t),
                    },
                    Width::Double => memory.read_i64(ea),
                };
                match loaded {
                    Ok(v) => {
                        self.x[f.rd] = v;
                        self.reservation = Some(ea);
                        Ok(Event::Retired)
                    },
                    Err(t) => Err(t),
                }
            },
            Op::StoreConditional(w) => {
                let ea = a as u64;
                if self.reservation == Some(ea) {
                    let v = b as u64;
                    let done = match w {
                        Width::Word => memory.write_u32(ea, v as u32),
                        Width::Double => memory.write_u64(ea, v),
                    };
                    match done {
                        Ok(_) => {
                            self.x[f.rd] = 0;
                            self.reservation = None;
                            Ok(Event::Retired)
                        },
                        Err(t) => Err(t),
                    }
                } else {
                    self.x[f.rd] = 1;
                    Ok(Event::Retired)
                }
            },
            Op::Amo(o, w) => {
                let ea = a as u64;
                match w {
                    Width::Word => match memory.read_i32(ea) {
                        Ok(v) => {
                            let old = v as i64;
                            let value = amo_word(o, old as i32, b as i32);
                            match memory.write_u32(ea, value) {
                                Ok(_) => {
                                    self.x[f.rd] = old;
                                    Ok(Event::Retired)
                                },
                                Err(t) => Err(t),
                            }
                        },
                        Err(t) => Err(t),
                    },
                    Width::Double => match memory.read_i64(ea) {
                        Ok(old) => {
                            let value = amo_double(o, old, b);
                            match memory.write_u64(ea, value) {
                                Ok(_) => {
                                    self.x[f.rd] = old;
                                    Ok(Event::Retired)
                                },
                                Err(t) => Err(t),
                            }
                        },
                        Err(t) => Err(t),
                    },
                }
            },
            Op::FloatLoad(w) => {
                let i = parse_format_i(word);
                let ea = (a as u64).wrapping_add(i.imm as u64);
                match w {
                    Width::Word => match memory.read_u32(ea) {
                        Ok(v) => {
                            self.f[i.rd] = NAN_BOX | (v as u64);
                            Ok(Event::Retired)
                        },
                        Err(t) => Err(t),
                    },
                    Width::Double => match memory.read_u64(ea) {
                        Ok(v) => {
                            self.f[i.rd] = v;
                            Ok(Event::Retired)
                        },
                        Err(t) => Err(t),
                    },
                }
            },
            Op::FloatStore(w) => {
                let sf = parse_format_s(word);
                let ea = (a as u64).wrapping_add(sf.imm as u64);
                let v = self.f[sf.rs2];
                let done = match w {
                    Width::Word => memory.write_u32(ea, v as u32),
                    Width::Double => memory.write_u64(ea, v),
                };
                match done {
                    Ok(_) => Ok(Event::Retired),
                    Err(t) => Err(t),
                }
            },
            _ => Err(Trap { trap_type: TrapType::IllegalInstruction, value: word as u64 }),
        }
    }


    /// FP register moves and sign injection; operations that need IEEE
    /// arithmetic are handed to the host as a `FloatRequest`.
    fn execute_float(&mut self, op: Op, word: u32) -> (r: Result<Event, Trap>)
        requires
            is_float_op(op),
        ensures
            (final(self).state(), Seq::<u8>::empty(), r) == execute_float(
                old(self).state(),
                Seq::<u8>::empty(),
                op,
                word,
            ),
            final(self).xlen == old(self).xlen,
    {
        let f = parse_format_r2(word);
        let fa = self.f[f.rs1];
        let fb = self.f[f.rs2];
        match op {
            Op::FloatMoveToInt(Width::Word) => {
                self.x[f.rd] = if fa as u32 == 0xffc0_0000u32 {
                    CANONICAL_NAN_SINGLE as i64
                } else {
                    fa as u32 as i32 as i64
                };
            },
            Op::FloatMoveToInt(Width::Double) => {
                self.x[f.rd] = fa as i64;
            },
            Op::FloatMoveFromInt(Width::Word) => {
                self.f[f.rd] = NAN_BOX | (self.x[f.rs1] as u32 as u64);
            },
            Op::FloatMoveFromInt(Width::Double) => {
                self.f[f.rd] = self.x[f.rs1] as u64;
            },
            Op::FloatSign(o, Width::Word) => {
                self.f[f.rd] = NAN_BOX | (inject_sign32(o, fa as u32, fb as u32) as u64);
            },
            Op::FloatSign(o, Width::Double) => {
                self.f[f.rd] = inject_sign64(o, fa, fb);
            },
            Op::Float(o, w) => {
                return Ok(
                    Event::Float(
                        FloatRequest {
                            op: o,
                            width: w,
                            rd: f.rd,
                            a: fa,
                            b: fb,
                            c: self.f[f.rs3],
                            x: self.x[f.rs1],
                        },
                    ),
                );
            },
            _ => {
                return Err(Trap { trap_type: TrapType::IllegalInstruction, value: word as u64 });
            },
        }
        Ok(Event::Retired)
    }

    /// Runs handler `op` for `word`, the instruction at `addr`; the pc
    /// already points at the next instruction.
    fn execute<M: Memory>(&mut self, memory: &mut M, op: Op, word: u32, addr: u64) -> (r: Result<
        Event,
        Trap,
    >)
        ensures
            (final(self).state(), final(memory).bytes(), r) == execute_spec(
                old(self).state(),
                old(memory).bytes(),
                op,
                word,
                addr,
            ),
            final(self).xlen == old(self).xlen,
    {
        if is_memory(op) {
            self.execute_memory(memory, op, word)
        } else if is_float(op) {
            self.execute_float(op, word)
        } else {
            self.execute_register(op, word, addr)
        }
    }

    /// Fetches the 32-bit word at the pc, expanding it when its low half is a
    /// compressed instruction, and advances the pc past the instruction. When
    /// the word does not lie inside memory it faults with the pc, which stays.
    pub fn fetch<M: Memory>(&mut self, memory: &M) -> (r: Result<u32, Trap>)
        ensures
            match fetch_spec(memory.bytes(), old(self).pc) {
                Ok((word, len)) => r == Ok::<u32, Trap>(word) && final(self).state() == with_pc(
                    old(self).state(),
                    add64(old(self).pc, len),
                ),
                Err(t) => r == Err::<u32, Trap>(t) && final(self).state() == old(self).state(),
            },
            final(self).xlen == old(self).xlen,
    {
        let pc = self.pc;
        match memory.read_u32(pc) {
            Err(_) => Err(Trap { trap_type: TrapType::InstructionAccessFault, value: pc }),
            Ok(w) => if w & 3 == 3 {
                self.pc = pc.wrapping_add(4);
                Ok(w)
            } else {
                self.pc = pc.wrapping_add(2);
                Ok(uncompress(w & 0xffff))
            },
        }
    }

    /// Executes one instruction: advances `time`, fetches, decodes and runs
    /// it, then forces x0 back to zero. `Ok` carries what the host may have
    /// to do (nothing, an ECALL, or a floating-point operation); a trap comes
    /// back verbatim as `Err`.
    pub fn tick<M: Memory>(&mut self, memory: &mut M) -> (r: Result<Event, Trap>)
        ensures
            (final(self).state(), final(memory).bytes(), r) == step_spec(
                old(self).state(),
                old(memory).bytes(),
            ),
            final(self).x[0] == 0,
            r matches Ok(Event::Float(q)) ==> q.rd < 32,
            final(self).xlen == old(self).xlen,
    {
        let time = self.csr[CSR_TIME as usize];
        self.csr[CSR_TIME as usize] = time.wrapping_add(1);
        let address = self.pc;
        let result = match self.fetch(memory) {
            Err(t) => Err(t),
            Ok(word) => match decode(word) {
                None => Err(Trap { trap_type: TrapType::IllegalInstruction, value: word as u64 }),
                Some(instruction) => {
                    proof {
                        crate::instruction::lemma_register_fields(word);
                    }
                    self.execute(memory, instruction.operation, word, address)
                },
            },
        };
        self.x[0] = 0;
        result
    }

    /// Completes a `FloatRequest` with the host's result: a single-precision
    /// result is NaN-boxed into `f[rd]`, a double goes to `f[rd]` as it is, an
    /// integer to `x[rd]` (x0 stays zero); `flags` (NV DZ OF UF NX) accrue
    /// into `fflags`.
    pub fn complete_float(&mut self, rd: usize, value: FloatValue, flags: u64)
        requires
            rd < 32,
        ensures
            final(self).state() == with_csr(
                complete_value(old(self).state(), rd as int, value),
                csr_write(old(self).csr@, CSR_FFLAGS, csr_read(old(self).csr@, CSR_FFLAGS) | flags),
            ),
            old(self).x[0] == 0 ==> final(self).x[0] == 0,
            final(self).xlen == old(self).xlen,
    {
        match value {
            FloatValue::Single(v) => self.set_f32(rd, v),
            FloatValue::Double(v) => {
                self.f[rd] = v;
            },
            FloatValue::Integer(v) => {
                if rd != 0 {
                    self.x[rd] = v;
                }
            },
        }
        let accrued = self.read_fflags() | flags;
        self.write_fflags(accrued);
    }

    /// Classifies an instruction word (see `decode::decode`).
    pub fn decode(word: u32) -> (r: Option<Instruction>)
        ensures
            r is None <==> crate::decode::decode_spec(word) is None,
            r matches Some(i) ==> crate::decode::decode_spec(word) == Some(i.operation) && i.name
                == crate::decode::mnemonic(i.operation),
    {
        crate::decode::decode(word)
    }
}

fn is_memory(op: Op) -> (r: bool)
    ensures
        r == is_memory_op(op),
{
    match op {
        Op::Load(_) | Op::Store(_) | Op::LoadReserved(_) | Op::StoreConditional(_) | Op::Amo(_, _)
        | Op::FloatLoad(_) | Op::FloatStore(_) => true,
        _ => false,
    }
}

fn is_float(op: Op) -> (r: bool)
    ensures
        r == is_float_op(op),
{
    match op {
        Op::FloatMoveToInt(_) | Op::FloatMoveFromInt(_) | Op::FloatSign(_, _) | Op::Float(
            _,
            _,
        ) => true,
        _ => false,
    }
}

fn inject_sign32(op: SignOp, a: u32, b: u32) -> (r: u32)
    ensures
        r == sign_inject32(op, a, b),
{
    let sign = match op {
        SignOp::Inject => b & 0x8000_0000,
        SignOp::Negate => (b & 0x8000_0000) ^ 0x8000_0000,
        SignOp::Xor => (a ^ b) & 0x8000_0000,
    };
    sign | (a & 0x7fff_ffff)
}

fn inject_sign64(op: SignOp, a: u64, b: u64) -> (r: u64)
    ensures
        r == sign_inject64(op, a, b),
{
    let sign = match op {
        SignOp::Inject => b & 0x8000_0000_0000_0000,
        SignOp::Negate => (b & 0x8000_0000_0000_0000) ^ 0x8000_0000_0000_0000,
        SignOp::Xor => (a ^ b) & 0x8000_0000_0000_0000,
    };
    sign | (a & 0x7fff_ffff_ffff_ffff)
}

/// `s` with a host floating-point result written to register `rd`.
pub open spec fn complete_value(s: HartState, rd: int, value: FloatValue) -> HartState {
    match value {
        FloatValue::Single(v) => with_f(s, rd, box_single(v)),
        FloatValue::Double(v) => with_f(s, rd, v),
        FloatValue::Integer(v) => if rd != 0 {
            with_x(s, rd, v)
        } else {
            s
        },
    }
}

/// The word an AMO.W stores, from the loaded word and the low word of `x[rs2]`.
fn amo_word(op: AmoOp, o: i32, s: i32) -> (r: u32)
    ensures
        r as u64 == amo_spec(op, Width::Word, o as i64, s as i64),
{
    match op {
        AmoOp::Swap => s as u32,
        AmoOp::Add => o.wrapping_add(s) as u32,
        AmoOp::Xor => (o ^ s) as u32,
        AmoOp::And => (o & s) as u32,
        AmoOp::Or => (o | s) as u32,
        AmoOp::Min => if s <= o {
            s as u32
        } else {
            o as u32
        },
        AmoOp::Max => if s >= o {
            s as u32
        } else {
            o as u32
        },
        AmoOp::Minu => if (s as u32) <= (o as u32) {
            s as u32
        } else {
            o as u32
        },
        AmoOp::Maxu => if (s as u32) >= (o as u32) {
            s as u32
        } else {
            o as u32
        },
    }
}

/// The doubleword an AMO.D stores, from the loaded value and `x[rs2]`.
fn amo_double(op: AmoOp, old: i64, src: i64) -> (r: u64)
    ensures
        r == amo_spec(op, Width::Double, old, src),
{
    match op {
        AmoOp::Swap => src as u64,
        AmoOp::Add => old.wrapping_add(src) as u64,
        AmoOp::Xor => (old ^ src) as u64,
        AmoOp::And => (old & src) as u64,
        AmoOp::Or => (old | src) as u64,
        AmoOp::Min => if src <= old {
            src as u64
        } else {
            old as u64
        },
        AmoOp::Max => if src >= old {
            src as u64
        } else {
            old as u64
        },
        AmoOp::Minu => if (src as u64) <= (old as u64) {
            src as u64
        } else {
            old as u64
        },
        AmoOp::Maxu => if (src as u64) >= (old as u64) {
            src as u64
        } else {
            old as u64
        },
    }
}

/// A NaN-boxed single has its upper 32 bits all ones and its value below.
pub proof fn lemma_boxed_high_half(bits: u32)
    ensures
        box_single(bits) >> 32u64 == 0xffff_ffffu64,
        box_single(bits) as u32 == bits,
{
    assert(((0xffff_ffff_0000_0000u64 | (bits as u64)) >> 32u64 == 0xffff_ffffu64) && (
    0xffff_ffff_0000_0000u64 | (bits as u64)) as u32 == bits) by (bit_vector);
}

} // verus!
