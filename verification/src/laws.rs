//! The machine's governing laws, stated over the model and proved once
//! and for all: the status-flag algebra every register write obeys, the
//! wraparound of the increment instruction, the fate of unsupported
//! opcodes, and the call/return round trip.

use vstd::prelude::*;

use crate::arith::{
    add8, add16, sub8, sub16, low_byte, high_byte, lemma_word_split_roundtrip, lemma_add16_add,
    lemma_add16_sub, lemma_sub8_add, lemma_sub8_changes,
};
use crate::isa::{AddressingMode, Mnemonic, spec_decode, writes_a, writes_x, writes_y};
use crate::model::{
    CpuState, CpuError, StepOutcome, wf_state, spec_update_flags, zero_flag_set,
    negative_flag_set, spec_step, spec_advance, spec_push, spec_pop_state, spec_pop_byte,
    stack_cell,
};

verus! {

/// The flag algebra: the shared update rule sets the Zero bit exactly
/// when the produced value is zero, the Negative bit exactly when its
/// high bit is set, and leaves every other status bit as it was.
pub proof fn lemma_flag_rule(status: u8, result: u8)
    ensures
        zero_flag_set(spec_update_flags(status, result)) <==> result == 0,
        negative_flag_set(spec_update_flags(status, result)) <==> result & 0x80 != 0,
        spec_update_flags(status, result) & 0b0111_1101 == status & 0b0111_1101,
{
    let w = if result == 0 {
        status | 0x02u8
    } else {
        status & 0xFDu8
    };
    assert((status | 0x02u8) & 0x02u8 != 0) by (bit_vector);
    assert((status & 0xFDu8) & 0x02u8 == 0) by (bit_vector);
    assert((w | 0x80u8) & 0x02u8 == w & 0x02u8) by (bit_vector);
    assert((w & 0x7Fu8) & 0x02u8 == w & 0x02u8) by (bit_vector);
    assert((w | 0x80u8) & 0x80u8 != 0) by (bit_vector);
    assert((w & 0x7Fu8) & 0x80u8 == 0) by (bit_vector);
    assert((status | 0x02u8) & 0b0111_1101u8 == status & 0b0111_1101u8) by (bit_vector);
    assert((status & 0xFDu8) & 0b0111_1101u8 == status & 0b0111_1101u8) by (bit_vector);
    assert((w | 0x80u8) & 0b0111_1101u8 == w & 0b0111_1101u8) by (bit_vector);
    assert((w & 0x7Fu8) & 0b0111_1101u8 == w & 0b0111_1101u8) by (bit_vector);
}

/// For every 8-bit value loaded into A, X or Y, and regardless of
/// which instruction produced it: after the step, the Zero flag is set
/// exactly when the value is zero and the Negative flag exactly when
/// its high bit is set.
pub proof fn lemma_flags_track_register_writes(s: CpuState)
    requires
        wf_state(s),
    ensures
        ({
            let t = spec_step(s).state;
            match spec_decode(s.mem[s.pc as int]) {
                Some(entry) => {
                    &&& writes_a(entry.0) ==> ((zero_flag_set(t.status) <==> t.a == 0) && (
                    negative_flag_set(t.status) <==> t.a & 0x80 != 0))
                    &&& writes_x(entry.0) ==> ((zero_flag_set(t.status) <==> t.x == 0) && (
                    negative_flag_set(t.status) <==> t.x & 0x80 != 0))
                    &&& writes_y(entry.0) ==> ((zero_flag_set(t.status) <==> t.y == 0) && (
                    negative_flag_set(t.status) <==> t.y & 0x80 != 0))
                },
                None => true,
            }
        }),
{
    assert forall|st: u8, v: u8|
        ((zero_flag_set(#[trigger] spec_update_flags(st, v)) <==> v == 0) && (negative_flag_set(
            spec_update_flags(st, v),
        ) <==> v & 0x80 != 0)) by {
        lemma_flag_rule(st, v);
    }
}

/// The increment instruction is closed under modulo-256 wraparound:
/// it always adds one to X modulo 256, flags following the shared
/// rule, and execution continues.
pub proof fn lemma_inx_wraps(s: CpuState)
    requires
        wf_state(s),
        spec_decode(s.mem[s.pc as int]) == Some((Mnemonic::Inx, AddressingMode::NoneAddressing)),
    ensures
        spec_step(s).state.x == add8(s.x, 1),
        spec_step(s).state.status == spec_update_flags(s.status, add8(s.x, 1)),
        spec_step(s).outcome == Ok::<StepOutcome, CpuError>(StepOutcome::Running),
{
}

/// A fetched byte with no entry in the opcode table stops the run with
/// `UnsupportedOpcode` naming that byte: it is never treated as a
/// no-op, and nothing but the program counter's fetch advance changes.
pub proof fn lemma_unsupported_opcode_stops(s: CpuState)
    requires
        wf_state(s),
        spec_decode(s.mem[s.pc as int]) is None,
    ensures
        spec_step(s).outcome == Err::<StepOutcome, CpuError>(
            CpuError::UnsupportedOpcode(s.mem[s.pc as int]),
        ),
        spec_step(s).state == (CpuState { pc: add16(s.pc, 1), ..s }),
{
}

/// The call/return round trip: a call whose target begins with the
/// return instruction brings the program counter to the instruction
/// following the call site — the byte just past the call's opcode and
/// its two operand bytes — with execution still running.
#[verifier::rlimit(100)]
pub proof fn lemma_jsr_rts_roundtrip(s: CpuState)
    requires
        wf_state(s),
        spec_decode(s.mem[s.pc as int]) == Some((Mnemonic::Jsr, AddressingMode::Absolute)),
        ({
            let s1 = spec_step(s).state;
            spec_decode(s1.mem[s1.pc as int]) == Some(
                (Mnemonic::Rts, AddressingMode::NoneAddressing),
            )
        }),
    ensures
        spec_step(spec_step(s).state).state.pc == add16(s.pc, 3),
        spec_step(spec_step(s).state).outcome == Ok::<StepOutcome, CpuError>(StepOutcome::Running),
{
    let f = CpuState { pc: add16(s.pc, 1), ..s };
    let adv = spec_advance(f, AddressingMode::Absolute);
    lemma_add16_add(s.pc, 1, 2);
    assert(adv.pc == add16(s.pc, 3));
    let save = sub16(adv.pc, 1);
    lemma_add16_sub(s.pc, 3, 1);
    assert(save == add16(s.pc, 2));
    let pushed = spec_push(spec_push(adv, high_byte(save)), low_byte(save));
    let s1 = spec_step(s).state;
    assert(s1.sp == sub8(s.sp, 2));
    assert(s1.mem == pushed.mem);
    lemma_sub8_changes(s.sp, 1);
    assert(stack_cell(sub8(s.sp, 1)) != stack_cell(s.sp));
    assert(s1.mem[stack_cell(sub8(s.sp, 1)) as int] == low_byte(save));
    assert(s1.mem[stack_cell(s.sp) as int] == high_byte(save));
    lemma_sub8_add(s.sp, 2, 1);
    assert(add8(sub8(s.sp, 2), 1) == sub8(s.sp, 1));
    lemma_sub8_add(s.sp, 1, 1);
    let f1 = CpuState { pc: add16(s1.pc, 1), ..s1 };
    assert(spec_pop_byte(f1) == low_byte(save));
    assert(spec_pop_byte(spec_pop_state(f1)) == high_byte(save));
    lemma_word_split_roundtrip(save);
    lemma_add16_add(s.pc, 2, 1);
    assert(spec_step(s1).state.pc == add16(s.pc, 3));
}

} // verus!
