//! Properties of the step relation that hold for every input.
use vstd::prelude::*;
use crate::compressed::{expansion, INVALID_WORD};
use crate::decode::decode_spec;
use crate::trap::Trap;
use crate::alu::lemma_w_results_sign_extended;
use crate::instruction::{rd_of, rs1_of, rs2_of, Op, SignOp, Width};
use crate::memory::in_bounds;
use crate::semantics::{
    add64, alu_w_low, box_single, fetch_spec, is_memory_op, step_spec, tick_time, csr_write, execute_spec, merge_masked, run_word, state_wf, width_size,
    imm_w_operand, with_pc, HartState, CSR_MSTATUS, CSR_SSTATUS, SSTATUS_MASK,
};

verus! {

/// Every instruction that writes a single-precision value to an FP register
/// (FLW, FMV.W.X, FSGNJ*.S) leaves that register NaN-boxed: bits 63..32 all ones.
pub proof fn lemma_single_writes_boxed(s: HartState, m: Seq<u8>, op: Op, word: u32, addr: u64)
    requires
        state_wf(s),
        op == Op::FloatLoad(Width::Word) || op == Op::FloatMoveFromInt(Width::Word) || exists|
            o: SignOp,
        | op == Op::FloatSign(o, Width::Word),
        execute_spec(s, m, op, word, addr).2 is Ok,
    ensures
        execute_spec(s, m, op, word, addr).0.f[rd_of(word) as int] >> 32u64 == 0xffff_ffffu64,
{
    let rd = rd_of(word) as int;
    crate::instruction::lemma_register_fields(word);
    let out = execute_spec(s, m, op, word, addr);
    let v = out.0.f[rd];
    assert(exists|b: u32| v == box_single(b));
    let b = choose|b: u32| v == box_single(b);
    crate::cpu::lemma_boxed_high_half(b);
}

/// Writes `vs`, in order, to CSR `a`.
pub open spec fn csr_write_all(c: Seq<u64>, a: u16, vs: Seq<u64>) -> Seq<u64>
    decreases vs.len(),
{
    if vs.len() == 0 {
        c
    } else {
        csr_write_all(csr_write(c, a, vs[0]), a, vs.drop_first())
    }
}

/// A write to `sstatus` changes only the bits of `mstatus` under the `sstatus`
/// mask, and no other CSR.
pub proof fn lemma_sstatus_write_preserves(c: Seq<u64>, v: u64)
    requires
        c.len() == 4096,
    ensures
        csr_write(c, CSR_SSTATUS, v)[CSR_MSTATUS as int] & !SSTATUS_MASK == c[CSR_MSTATUS as int]
            & !SSTATUS_MASK,
        forall|i: int| 0 <= i < 4096 && i != CSR_MSTATUS ==> #[trigger] csr_write(c, CSR_SSTATUS, v)[i] == c[i],
        csr_write(c, CSR_SSTATUS, v).len() == 4096,
{
    let old = c[CSR_MSTATUS as int];
    assert(merge_masked(old, v, 0x8000_0003_000d_e162u64) & !0x8000_0003_000d_e162u64 == old
        & !0x8000_0003_000d_e162u64) by (bit_vector);
}

/// For any sequence of writes to `sstatus`, the bits of `mstatus` outside the
/// `sstatus` mask are unchanged, and so is every other CSR.
pub proof fn lemma_sstatus_writes_preserve(c: Seq<u64>, vs: Seq<u64>)
    requires
        c.len() == 4096,
    ensures
        csr_write_all(c, CSR_SSTATUS, vs).len() == 4096,
        csr_write_all(c, CSR_SSTATUS, vs)[CSR_MSTATUS as int] & !SSTATUS_MASK == c[CSR_MSTATUS as int]
            & !SSTATUS_MASK,
        forall|i: int| 0 <= i < 4096 && i != CSR_MSTATUS ==> #[trigger] csr_write_all(c, CSR_SSTATUS, vs)[i] == c[i],
    decreases vs.len(),
{
    if vs.len() > 0 {
        let c1 = csr_write(c, CSR_SSTATUS, vs[0]);
        lemma_sstatus_write_preserves(c, vs[0]);
        lemma_sstatus_writes_preserve(c1, vs.drop_first());
    }
}

/// SC succeeds (writes 0 to `x[rd]` and retires) exactly when the reservation
/// is held at the address in `x[rs1]` and the store lies inside memory; a
/// success releases the reservation and a failure for want of it stores nothing.
pub proof fn lemma_sc_succeeds_iff_reserved(s: HartState, m: Seq<u8>, w: Width, word: u32, addr: u64)
    requires
        state_wf(s),
    ensures
        ({
            let out = execute_spec(s, m, Op::StoreConditional(w), word, addr);
            let a = s.x[rs1_of(word) as int] as u64;
            &&& (out.2 is Ok && out.0.x[rd_of(word) as int] == 0) <==> (s.reservation == Some(a)
                && in_bounds(m.len(), a, width_size(w)))
            &&& (out.2 is Ok && out.0.x[rd_of(word) as int] == 0) ==> out.0.reservation is None
            &&& s.reservation != Some(a) ==> out.1 == m && out.0.x[rd_of(word) as int] == 1
                && out.2 is Ok
        }),
{
    crate::instruction::lemma_register_fields(word);
}

/// Only LR and SC touch the reservation: every other instruction keeps it.
pub proof fn lemma_reservation_only_lr_sc(s: HartState, m: Seq<u8>, op: Op, word: u32, addr: u64)
    requires
        state_wf(s),
        !(op is LoadReserved),
        !(op is StoreConditional),
    ensures
        execute_spec(s, m, op, word, addr).0.reservation == s.reservation,
{
}

/// LR that retires holds the reservation at the address it loaded from.
pub proof fn lemma_lr_reserves(s: HartState, m: Seq<u8>, w: Width, word: u32, addr: u64)
    requires
        state_wf(s),
        execute_spec(s, m, Op::LoadReserved(w), word, addr).2 is Ok,
    ensures
        execute_spec(s, m, Op::LoadReserved(w), word, addr).0.reservation == Some(
            s.x[rs1_of(word) as int] as u64,
        ),
{
}

/// Running a compressed halfword `h` and running its expansion `w` from the
/// same state give the same registers, CSRs, reservation, memory and result;
/// only the pc differs, by the two lengths when the instruction falls through.
/// JAL and JALR are left out: they write the fall-through address, which
/// differs, to `x[rd]`.
pub proof fn lemma_compressed_matches_expanded(s: HartState, m: Seq<u8>, h: u32)
    requires
        state_wf(s),
        decode_spec(expansion(h)) is Some,
        decode_spec(expansion(h)) != Some(Op::Jal),
        decode_spec(expansion(h)) != Some(Op::Jalr),
    ensures
        ({
            let w = expansion(h);
            let short = run_word(s, m, w, 2);
            let long = run_word(s, m, w, 4);
            &&& short.1 == long.1
            &&& short.2 == long.2
            &&& with_pc(short.0, 0) == with_pc(long.0, 0)
            &&& (short.0.pc == long.0.pc || (short.0.pc == add64(s.pc, 2) && long.0.pc == add64(
                s.pc,
                4,
            )))
        }),
{
    let w = expansion(h);
    crate::instruction::lemma_register_fields(w);
    let op = decode_spec(w).unwrap();
    let u2 = with_pc(s, add64(s.pc, 2));
    let u4 = with_pc(s, add64(s.pc, 4));
    let e2 = execute_spec(u2, m, op, w, s.pc);
    let e4 = execute_spec(u4, m, op, w, s.pc);
    assert(e2.1 == e4.1);
    assert(e2.2 == e4.2);
    assert(with_pc(e2.0, 0) == with_pc(e4.0, 0));
}

/// A reserved compressed encoding expands to a word that no handler claims, so
/// it is reported as an illegal instruction.
pub proof fn lemma_reserved_compressed_is_illegal(h: u32)
    requires
        expansion(h) == INVALID_WORD,
    ensures
        decode_spec(expansion(h)) is None,
{
    assert(0xffff_ffffu32 & 0x7f == 0x7f) by (bit_vector);
}

/// A `W` instruction writes `x[rd]` with its 32-bit result on the low halves of
/// its operands (`alu_w_low`: e.g. ADDW adds the low words with wrap-around,
/// SRLW shifts the low word right by `x[rs2] & 0x1f`), sign-extended from bit 31.
pub proof fn lemma_w_ops_write_sign_extended(s: HartState, m: Seq<u8>, op: Op, word: u32, addr: u64)
    requires
        state_wf(s),
        op is ImmW || op is RegW,
    ensures
        ({
            let v = execute_spec(s, m, op, word, addr).0.x[rd_of(word) as int];
            let a = s.x[rs1_of(word) as int];
            &&& v == (v as i32) as i64
            &&& op matches Op::RegW(o) ==> v == alu_w_low(o, a, s.x[rs2_of(word) as int]) as i64
            &&& op matches Op::ImmW(o) ==> v == alu_w_low(o, a, imm_w_operand(o, word)) as i64
        }),
{
    crate::instruction::lemma_register_fields(word);
    let a = s.x[rs1_of(word) as int];
    match op {
        Op::ImmW(o) => lemma_w_results_sign_extended(o, a, imm_w_operand(o, word)),
        Op::RegW(o) => lemma_w_results_sign_extended(o, a, s.x[rs2_of(word) as int]),
        _ => {},
    }
}


/// Running a compressed halfword `h` from one memory and its expansion from
/// another, from the same state, ends alike for every instruction that does
/// not touch memory and is not JAL/JALR: same registers, CSRs, reservation
/// and result, each memory unchanged, and the pc either equal (a taken branch
/// or jump) or advanced by 2 and 4.
pub proof fn lemma_compressed_step_matches_expanded(
    s: HartState,
    short_mem: Seq<u8>,
    long_mem: Seq<u8>,
    h: u32,
)
    requires
        state_wf(s),
        fetch_spec(short_mem, s.pc) == Ok::<(u32, u64), Trap>((expansion(h), 2)),
        fetch_spec(long_mem, s.pc) == Ok::<(u32, u64), Trap>((expansion(h), 4)),
        decode_spec(expansion(h)) is Some,
        !is_memory_op(decode_spec(expansion(h)).unwrap()),
        decode_spec(expansion(h)) != Some(Op::Jal),
        decode_spec(expansion(h)) != Some(Op::Jalr),
    ensures
        ({
            let short = step_spec(s, short_mem);
            let long = step_spec(s, long_mem);
            &&& short.1 == short_mem
            &&& long.1 == long_mem
            &&& short.2 == long.2
            &&& with_pc(short.0, 0) == with_pc(long.0, 0)
            &&& (short.0.pc == long.0.pc || (short.0.pc == add64(s.pc, 2) && long.0.pc == add64(
                s.pc,
                4,
            )))
        }),
{
    let w = expansion(h);
    crate::instruction::lemma_register_fields(w);
    let t = tick_time(s);
    let op = decode_spec(w).unwrap();
    let u2 = with_pc(t, add64(s.pc, 2));
    let u4 = with_pc(t, add64(s.pc, 4));
    let e2 = execute_spec(u2, short_mem, op, w, s.pc);
    let e4 = execute_spec(u4, long_mem, op, w, s.pc);
    assert(e2.1 == short_mem && e4.1 == long_mem);
    assert(e2.2 == e4.2);
    assert(with_pc(e2.0, 0) == with_pc(e4.0, 0));
}

/// Executing an instruction keeps 32 integer and FP registers and 4096 CSRs.
pub proof fn lemma_execute_preserves_wf(s: HartState, m: Seq<u8>, op: Op, word: u32, addr: u64)
    requires
        state_wf(s),
    ensures
        state_wf(execute_spec(s, m, op, word, addr).0),
{
    crate::instruction::lemma_register_fields(word);
    crate::semantics::lemma_csr_write_len(s.csr, crate::instruction::csr_of(word));
}

/// The state and memory after executing `steps` — handler, word, address —
/// one after another from `s` and `m`.
pub open spec fn run_steps(s: HartState, m: Seq<u8>, steps: Seq<(Op, u32, u64)>) -> (HartState, Seq<u8>)
    decreases steps.len(),
{
    if steps.len() == 0 {
        (s, m)
    } else {
        let o = execute_spec(s, m, steps[0].0, steps[0].1, steps[0].2);
        run_steps(o.0, o.1, steps.drop_first())
    }
}

/// After an LR that retires, any run of instructions none of which is LR or SC
/// leaves the reservation on the LR's address; an SC then succeeds exactly
/// when `x[rs1]` names that address and the store lies inside memory.
pub proof fn lemma_sc_after_lr(
    s: HartState,
    m: Seq<u8>,
    lr_width: Width,
    lr_word: u32,
    lr_addr: u64,
    steps: Seq<(Op, u32, u64)>,
    sc_width: Width,
    sc_word: u32,
    sc_addr: u64,
)
    requires
        state_wf(s),
        execute_spec(s, m, Op::LoadReserved(lr_width), lr_word, lr_addr).2 is Ok,
        forall|i: int|
            0 <= i < steps.len() ==> !(#[trigger] steps[i].0 is LoadReserved) && !(
            steps[i].0 is StoreConditional),
    ensures
        ({
            let after_lr = execute_spec(s, m, Op::LoadReserved(lr_width), lr_word, lr_addr);
            let before_sc = run_steps(after_lr.0, after_lr.1, steps);
            let reserved = s.x[rs1_of(lr_word) as int] as u64;
            let a = before_sc.0.x[rs1_of(sc_word) as int] as u64;
            let out = execute_spec(
                before_sc.0,
                before_sc.1,
                Op::StoreConditional(sc_width),
                sc_word,
                sc_addr,
            );
            &&& before_sc.0.reservation == Some(reserved)
            &&& (out.2 is Ok && out.0.x[rd_of(sc_word) as int] == 0) <==> (a == reserved
                && in_bounds(before_sc.1.len(), a, width_size(sc_width)))
        }),
{
    let after_lr = execute_spec(s, m, Op::LoadReserved(lr_width), lr_word, lr_addr);
    lemma_lr_reserves(s, m, lr_width, lr_word, lr_addr);
    lemma_execute_preserves_wf(s, m, Op::LoadReserved(lr_width), lr_word, lr_addr);
    lemma_steps_keep_reservation(after_lr.0, after_lr.1, steps);
    let before_sc = run_steps(after_lr.0, after_lr.1, steps);
    lemma_sc_succeeds_iff_reserved(before_sc.0, before_sc.1, sc_width, sc_word, sc_addr);
}

/// A run of instructions none of which is LR or SC keeps the reservation and
/// the well-formedness of the state.
pub proof fn lemma_steps_keep_reservation(s: HartState, m: Seq<u8>, steps: Seq<(Op, u32, u64)>)
    requires
        state_wf(s),
        forall|i: int|
            0 <= i < steps.len() ==> !(#[trigger] steps[i].0 is LoadReserved) && !(
            steps[i].0 is StoreConditional),
    ensures
        run_steps(s, m, steps).0.reservation == s.reservation,
        state_wf(run_steps(s, m, steps).0),
    decreases steps.len(),
{
    if steps.len() > 0 {
        let o = execute_spec(s, m, steps[0].0, steps[0].1, steps[0].2);
        assert(!(steps[0].0 is LoadReserved) && !(steps[0].0 is StoreConditional));
        lemma_reservation_only_lr_sc(s, m, steps[0].0, steps[0].1, steps[0].2);
        lemma_execute_preserves_wf(s, m, steps[0].0, steps[0].1, steps[0].2);
        let rest = steps.drop_first();
        assert forall|i: int| 0 <= i < rest.len() implies !(#[trigger] rest[i].0 is LoadReserved)
            && !(rest[i].0 is StoreConditional) by {
            assert(rest[i] == steps[i + 1]);
        }
        lemma_steps_keep_reservation(o.0, o.1, rest);
    }
}

/// After every step, whatever its outcome, x0 reads zero.
pub proof fn lemma_x0_zero_after_step(s: HartState, m: Seq<u8>)
    requires
        state_wf(s),
    ensures
        step_spec(s, m).0.x[0] == 0,
{
    let t = tick_time(s);
    if let Ok((w, len)) = fetch_spec(m, s.pc) {
        let u = with_pc(t, add64(s.pc, len));
        if let Some(op) = decode_spec(w) {
            lemma_execute_preserves_wf(u, m, op, w, s.pc);
        }
    }
}
} // verus!
