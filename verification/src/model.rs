//! The mathematical model of the machine: a ghost mirror of the CPU
//! state and a step function giving the meaning of one fetch-decode-
//! execute round. Every executable method of the CPU is specified
//! against this model, and the dispatcher's contract says that running
//! the machine iterates `spec_step`.

use vstd::prelude::*;

use crate::arith::{add8, add16, sub8, sub16, word, low_byte, high_byte};
use crate::isa::{AddressingMode, Mnemonic, spec_decode, spec_operand_size};

verus! {

/// Number of addressable byte cells: a flat 64K image, no banking.
pub const MEMORY_SIZE: usize = 0x10000;

/// Programs are loaded verbatim at this fixed origin.
pub const LOAD_ORIGIN: u16 = 0x8000;

/// Largest program image that fits between the load origin and the end
/// of the address space.
pub const MAX_PROGRAM_LEN: usize = 0x8000;

/// The 16-bit little-endian word at this address names the entry point.
pub const RESET_VECTOR: u16 = 0xFFFC;

/// The stack occupies the page based here, indexed by the stack pointer.
pub const STACK_BASE: u16 = 0x0100;

/// The stack pointer starts at the top of the stack page and descends.
pub const STACK_RESET: u8 = 0xFF;

/// Status bit recording that the last relevant result was zero.
pub const FLAG_ZERO: u8 = 0b0000_0010;

/// Status bit recording that the last relevant result had its high bit set.
pub const FLAG_NEGATIVE: u8 = 0b1000_0000;

/// An error the machine reports.
#[derive(Clone, Copy, Debug, PartialEq, Eq, Structural)]
pub enum CpuError {
    /// A program image larger than the space past the load origin was
    /// refused outright: nothing may be silently truncated.
    ProgramTooLarge,
    /// The fetched opcode byte has no entry in the opcode table; the
    /// run stops rather than skip the byte.
    UnsupportedOpcode(u8),
    /// The implied addressing mode was handed to the operand resolver,
    /// which has no address to compute for it.
    InvalidAddressingMode,
}

/// What a single executed instruction did to the control state.
#[derive(Clone, Copy, Debug, PartialEq, Eq, Structural)]
pub enum StepOutcome {
    /// The instruction completed and execution may continue.
    Running,
    /// The halt instruction was executed; the machine is stopped.
    Halted,
}

/// The machine state as the contracts speak of it: the register file,
/// the status flags, and the full memory image.
#[verifier::ext_equal]
pub struct CpuState {
    pub a: u8,
    pub x: u8,
    pub y: u8,
    pub status: u8,
    pub pc: u16,
    pub sp: u8,
    pub mem: Seq<u8>,
}

/// A well-formed state has exactly one byte cell per 16-bit address.
pub open spec fn wf_state(s: CpuState) -> bool {
    s.mem.len() == MEMORY_SIZE
}

/// The little-endian 16-bit word stored at `addr`, `addr + 1`; the
/// second cell's address wraps at the end of the address space.
pub open spec fn spec_mem16(mem: Seq<u8>, addr: u16) -> u16 {
    word(mem[add16(addr, 1) as int], mem[addr as int])
}

/// The shared flag-update rule: every register-producing instruction
/// routes its result through this function, which sets exactly the
/// Zero bit (iff the result is zero) and the Negative bit (iff the
/// result's high bit is set) and leaves every other status bit alone.
pub open spec fn spec_update_flags(status: u8, result: u8) -> u8 {
    let with_zero = if result == 0 {
        status | FLAG_ZERO
    } else {
        status & 0b1111_1101
    };
    if result & FLAG_NEGATIVE != 0 {
        with_zero | FLAG_NEGATIVE
    } else {
        with_zero & 0b0111_1111
    }
}

/// Whether the Zero bit of a status byte is set.
pub open spec fn zero_flag_set(status: u8) -> bool {
    status & FLAG_ZERO != 0
}

/// Whether the Negative bit of a status byte is set.
pub open spec fn negative_flag_set(status: u8) -> bool {
    status & FLAG_NEGATIVE != 0
}

/// The effective address an addressing mode resolves to, computed from
/// the operand bytes at `s.pc` and the current registers, without
/// advancing the program counter. For `NoneAddressing` there is no
/// address; the resolver reports `InvalidAddressingMode` instead, and
/// this function is never applied.
pub open spec fn spec_operand_address(s: CpuState, mode: AddressingMode) -> u16
    recommends
        wf_state(s),
        mode != AddressingMode::NoneAddressing,
{
    match mode {
        AddressingMode::Immediate => s.pc,
        AddressingMode::ZeroPage => s.mem[s.pc as int] as u16,
        AddressingMode::ZeroPage_X => add8(s.mem[s.pc as int], s.x) as u16,
        AddressingMode::ZeroPage_Y => add8(s.mem[s.pc as int], s.y) as u16,
        AddressingMode::Absolute => spec_mem16(s.mem, s.pc),
        AddressingMode::Absolute_X => add16(spec_mem16(s.mem, s.pc), s.x as u16),
        AddressingMode::Absolute_Y => add16(spec_mem16(s.mem, s.pc), s.y as u16),
        AddressingMode::Indirect => {
            let ptr = s.mem[s.pc as int];
            word(s.mem[add8(ptr, 1) as int], s.mem[ptr as int])
        },
        AddressingMode::Indirect_X => {
            let ptr = add8(s.mem[s.pc as int], s.x);
            word(s.mem[add8(ptr, 1) as int], s.mem[ptr as int])
        },
        AddressingMode::Indirect_Y => {
            let ptr = s.mem[s.pc as int];
            add16(word(s.mem[add8(ptr, 1) as int], s.mem[ptr as int]), s.y as u16)
        },
        AddressingMode::NoneAddressing => 0,
    }
}

/// The cell of the stack page the stack pointer currently names.
pub open spec fn stack_cell(sp: u8) -> u16 {
    (STACK_BASE + sp) as u16
}

/// Pushing a byte writes it at the stack pointer's cell and moves the
/// pointer down one, wrapping within eight bits.
pub open spec fn spec_push(s: CpuState, byte: u8) -> CpuState {
    CpuState {
        mem: s.mem.update(stack_cell(s.sp) as int, byte),
        sp: sub8(s.sp, 1),
        ..s
    }
}

/// Popping moves the stack pointer up one and reads the byte at the
/// cell it then names: the exact inverse of a push.
pub open spec fn spec_pop_state(s: CpuState) -> CpuState {
    CpuState { sp: add8(s.sp, 1), ..s }
}

/// The byte a pop returns.
pub open spec fn spec_pop_byte(s: CpuState) -> u8 {
    s.mem[stack_cell(add8(s.sp, 1)) as int]
}

/// Writing the accumulator, with the shared flag rule applied.
pub open spec fn spec_set_a(s: CpuState, v: u8) -> CpuState {
    CpuState { a: v, status: spec_update_flags(s.status, v), ..s }
}

/// Writing the X register, with the shared flag rule applied.
pub open spec fn spec_set_x(s: CpuState, v: u8) -> CpuState {
    CpuState { x: v, status: spec_update_flags(s.status, v), ..s }
}

/// Writing the Y register, with the shared flag rule applied.
pub open spec fn spec_set_y(s: CpuState, v: u8) -> CpuState {
    CpuState { y: v, status: spec_update_flags(s.status, v), ..s }
}

/// Advancing the program counter past an instruction's operand bytes.
pub open spec fn spec_advance(s: CpuState, mode: AddressingMode) -> CpuState {
    CpuState { pc: add16(s.pc, spec_operand_size(mode)), ..s }
}

/// The register value an instruction loads: the byte at its resolved
/// operand address.
pub open spec fn spec_loaded_byte(s: CpuState, mode: AddressingMode) -> u8
    recommends
        wf_state(s),
        mode != AddressingMode::NoneAddressing,
{
    s.mem[spec_operand_address(s, mode) as int]
}

/// A store: the named register's value written at the resolved operand
/// address; registers and flags untouched.
pub open spec fn spec_store(s: CpuState, mode: AddressingMode, value: u8) -> CpuState
    recommends
        wf_state(s),
        mode != AddressingMode::NoneAddressing,
{
    CpuState { mem: s.mem.update(spec_operand_address(s, mode) as int, value), ..s }
}

/// The call instruction: the program counter first skips the operand
/// bytes, the address one before the skipped-to point is pushed high
/// byte first, and control moves to the operand address as resolved at
/// the advanced program counter.
pub open spec fn spec_jsr(s: CpuState, mode: AddressingMode) -> CpuState
    recommends
        wf_state(s),
        mode != AddressingMode::NoneAddressing,
{
    let advanced = spec_advance(s, mode);
    let target = spec_operand_address(advanced, mode);
    let save = sub16(advanced.pc, 1);
    let pushed = spec_push(spec_push(advanced, high_byte(save)), low_byte(save));
    CpuState { pc: target, ..pushed }
}

/// The return instruction: two bytes are popped low byte first, the
/// return address is reassembled from them, and control moves one past
/// it.
pub open spec fn spec_rts(s: CpuState) -> CpuState {
    let lo = spec_pop_byte(s);
    let s1 = spec_pop_state(s);
    let hi = spec_pop_byte(s1);
    let s2 = spec_pop_state(s1);
    CpuState { pc: add16(word(hi, lo), 1), ..s2 }
}

/// A completed instruction after which execution continues.
pub open spec fn step_running(s: CpuState) -> StepResult {
    StepResult { state: s, outcome: Ok(StepOutcome::Running) }
}

/// The state an instruction step leaves behind, together with what the
/// dispatcher reports for it.
pub struct StepResult {
    pub state: CpuState,
    pub outcome: Result<StepOutcome, CpuError>,
}

/// One round of the dispatcher: fetch the opcode at the program
/// counter, advance past it, look the opcode up in the table, execute,
/// and for non-control instructions skip the operand bytes. Control
/// instructions set the program counter themselves and bypass the
/// generic advance; the halt instruction stops the machine; a byte
/// with no table entry stops the run with `UnsupportedOpcode`,
/// registers and memory untouched.
pub open spec fn spec_step(s: CpuState) -> StepResult
    recommends
        wf_state(s),
{
    let op = s.mem[s.pc as int];
    let f = CpuState { pc: add16(s.pc, 1), ..s };
    match spec_decode(op) {
        None => StepResult { state: f, outcome: Err(CpuError::UnsupportedOpcode(op)) },
        Some(entry) => {
            let mode = entry.1;
            match entry.0 {
                Mnemonic::Brk => StepResult { state: f, outcome: Ok(StepOutcome::Halted) },
                Mnemonic::Lda => step_running(
                    spec_advance(spec_set_a(f, spec_loaded_byte(f, mode)), mode),
                ),
                Mnemonic::Ldx => step_running(
                    spec_advance(spec_set_x(f, spec_loaded_byte(f, mode)), mode),
                ),
                Mnemonic::Ldy => step_running(
                    spec_advance(spec_set_y(f, spec_loaded_byte(f, mode)), mode),
                ),
                Mnemonic::Sta => step_running(spec_advance(spec_store(f, mode, f.a), mode)),
                Mnemonic::Stx => step_running(spec_advance(spec_store(f, mode, f.x), mode)),
                Mnemonic::Sty => step_running(spec_advance(spec_store(f, mode, f.y), mode)),
                Mnemonic::Tax => step_running(spec_advance(spec_set_x(f, f.a), mode)),
                Mnemonic::Txa => step_running(spec_advance(spec_set_a(f, f.x), mode)),
                Mnemonic::Inx => step_running(spec_advance(spec_set_x(f, add8(f.x, 1)), mode)),
                Mnemonic::Jmp => step_running(
                    CpuState { pc: spec_operand_address(f, mode), ..f },
                ),
                Mnemonic::Jsr => step_running(spec_jsr(f, mode)),
                Mnemonic::Rts => step_running(spec_rts(f)),
            }
        },
    }
}

/// The state after `n` rounds of the dispatcher.
pub open spec fn iter_step(s: CpuState, n: nat) -> CpuState
    decreases n,
{
    if n == 0 {
        s
    } else {
        spec_step(iter_step(s, (n - 1) as nat)).state
    }
}

/// The first `n` rounds from `s` all complete with execution running:
/// no halt and no error among them.
pub open spec fn runs_for(s: CpuState, n: nat) -> bool {
    forall|m: nat| m < n ==> #[trigger] spec_step(iter_step(s, m)).outcome == Ok::<
        StepOutcome,
        CpuError,
    >(StepOutcome::Running)
}

/// A step preserves well-formedness: no instruction changes how much
/// memory there is.
pub proof fn lemma_step_preserves_wf(s: CpuState)
    requires
        wf_state(s),
    ensures
        wf_state(spec_step(s).state),
{
}

/// The memory image after a program is loaded: the image copied
/// verbatim at the load origin, the reset vector pointing there in
/// little-endian order, and every other cell kept.
pub open spec fn spec_load_mem(mem: Seq<u8>, prog: Seq<u8>) -> Seq<u8>
    recommends
        mem.len() == MEMORY_SIZE,
        prog.len() <= MAX_PROGRAM_LEN,
{
    Seq::new(
        MEMORY_SIZE as nat,
        |i: int|
            if i == RESET_VECTOR {
                low_byte(LOAD_ORIGIN)
            } else if i == RESET_VECTOR + 1 {
                high_byte(LOAD_ORIGIN)
            } else if LOAD_ORIGIN <= i < LOAD_ORIGIN + prog.len() {
                prog[i - LOAD_ORIGIN]
            } else {
                mem[i]
            },
    )
}

/// The all-in-one run loop steps the machine at most this many times;
/// a program still running after that many instructions is given up
/// on. The bound exists only so that the loop has a measure: it is
/// far beyond anything a real caller can wait for.
pub const RUN_STEP_LIMIT: u64 = 0xFFFF_FFFF_FFFF_FFFF;

/// What the run loop guarantees, relating the state it started from
/// (`s0`), the state it stopped in (`s1`) and its result: some number
/// of rounds all completed running, and then either the halt
/// instruction stopped the machine cleanly, or a fetched byte without
/// a table entry stopped it with `UnsupportedOpcode` — or, on `Ok`
/// alone, the step bound ran out with the machine still running.
pub open spec fn run_post(s0: CpuState, s1: CpuState, r: Result<(), CpuError>) -> bool {
    match r {
        Ok(_) => exists|n: nat|
            #![auto]
            runs_for(s0, n) && ((spec_step(iter_step(s0, n)).outcome == Ok::<
                StepOutcome,
                CpuError,
            >(StepOutcome::Halted) && s1 == spec_step(iter_step(s0, n)).state) || (n
                == RUN_STEP_LIMIT && s1 == iter_step(s0, n))),
        Err(e) => exists|n: nat|
            #![auto]
            runs_for(s0, n) && spec_step(iter_step(s0, n)).outcome == Err::<
                StepOutcome,
                CpuError,
            >(e) && s1 == spec_step(iter_step(s0, n)).state,
    }
}

/// The state `reset` establishes: registers and flags cleared, the
/// stack pointer at the top of the stack page, and the program counter
/// read from the reset vector; memory untouched.
pub open spec fn spec_reset(s: CpuState) -> CpuState {
    CpuState {
        a: 0,
        x: 0,
        y: 0,
        status: 0,
        sp: STACK_RESET,
        pc: spec_mem16(s.mem, RESET_VECTOR),
        mem: s.mem,
    }
}

} // verus!
