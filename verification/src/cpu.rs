//! The executable CPU: register file, memory bus, stack unit, operand
//! resolver and the fetch-decode-execute dispatcher. Every method is
//! specified against the ghost model in `model`; the dispatcher's
//! contract says that stepping the machine computes `spec_step`.

use vstd::prelude::*;

use crate::arith::{
    add8, add16, wrap_add8, wrap_add16, wrap_sub8, wrap_sub16, word_of, low_of, high_of,
    low_byte, high_byte, lemma_word_split_roundtrip,
};
use crate::isa::{AddressingMode, Mnemonic, decode, spec_operand_size, lemma_table_consistent};
use crate::model::{
    CpuState, CpuError, StepOutcome, wf_state, spec_mem16, spec_update_flags,
    spec_operand_address, spec_push, spec_pop_state, spec_pop_byte, spec_set_a,
    spec_set_x, spec_set_y, spec_advance, spec_loaded_byte, spec_store, spec_jsr, spec_rts,
    spec_step, iter_step, runs_for, run_post, spec_load_mem, spec_reset, MEMORY_SIZE,
    LOAD_ORIGIN, MAX_PROGRAM_LEN, RESET_VECTOR, STACK_BASE, STACK_RESET, RUN_STEP_LIMIT,
    FLAG_ZERO, FLAG_NEGATIVE,
};

verus! {

/// The emulated processor: the A/X/Y register file, the status flags,
/// the program counter, the stack pointer, and the exclusively owned
/// flat 64K memory image. The raw buffer stays private; instruction
/// handlers and callers go through the bus accessors.
pub struct CPU {
    pub register_a: u8,
    pub register_x: u8,
    pub register_y: u8,
    pub status: u8,
    pub program_counter: u16,
    pub stack_pointer: u8,
    memory: Vec<u8>,
}

impl View for CPU {
    type V = CpuState;

    closed spec fn view(&self) -> CpuState {
        CpuState {
            a: self.register_a,
            x: self.register_x,
            y: self.register_y,
            status: self.status,
            pc: self.program_counter,
            sp: self.stack_pointer,
            mem: self.memory@,
        }
    }
}

impl CPU {
    /// The machine is well formed when its memory holds exactly one
    /// byte cell per 16-bit address. The constructor establishes this
    /// and every method preserves it.
    pub open spec fn wf(&self) -> bool {
        wf_state(self@)
    }

    /// A fresh machine: registers and flags cleared, the stack pointer
    /// at the top of the stack page, and zero-initialized memory.
    pub fn new() -> (cpu: CPU)
        ensures
            cpu.wf(),
            cpu@ == (CpuState {
                a: 0,
                x: 0,
                y: 0,
                status: 0,
                pc: 0,
                sp: STACK_RESET,
                mem: Seq::new(MEMORY_SIZE as nat, |i: int| 0u8),
            }),
    {
        let mut memory: Vec<u8> = Vec::new();
        while memory.len() < MEMORY_SIZE
            invariant
                memory@.len() <= MEMORY_SIZE,
                forall|i: int| 0 <= i < memory@.len() ==> memory@[i] == 0u8,
            decreases MEMORY_SIZE - memory.len(),
        {
            memory.push(0u8);
        }
        let cpu = CPU {
            register_a: 0,
            register_x: 0,
            register_y: 0,
            status: 0,
            program_counter: 0,
            stack_pointer: STACK_RESET,
            memory,
        };
        proof {
            assert(cpu@.mem =~= Seq::new(MEMORY_SIZE as nat, |i: int| 0u8));
        }
        cpu
    }

    /// Bus read: the byte at a 16-bit address. Always in bounds; the
    /// address space is exactly the 16-bit range.
    pub fn mem_read(&self, addr: u16) -> (b: u8)
        requires
            self.wf(),
        ensures
            b == self@.mem[addr as int],
    {
        self.memory[addr as usize]
    }

    /// Bus write: one byte at a 16-bit address; nothing else changes.
    pub fn mem_write(&mut self, addr: u16, data: u8)
        requires
            old(self).wf(),
        ensures
            final(self).wf(),
            final(self)@ == (CpuState { mem: old(self)@.mem.update(addr as int, data), ..old(self)@ }),
    {
        self.memory[addr as usize] = data;
    }

    /// Bus read of a little-endian 16-bit word; the second cell's
    /// address wraps at the end of the address space.
    pub fn mem_read_u16(&self, pos: u16) -> (w: u16)
        requires
            self.wf(),
        ensures
            w == spec_mem16(self@.mem, pos),
    {
        let lo = self.mem_read(pos);
        let hi = self.mem_read(wrap_add16(pos, 1));
        word_of(hi, lo)
    }

    /// Bus write of a little-endian 16-bit word: low byte at `pos`,
    /// high byte one past it, wrapping at the end of the address space.
    pub fn mem_write_u16(&mut self, pos: u16, data: u16)
        requires
            old(self).wf(),
        ensures
            final(self).wf(),
            final(self)@ == (CpuState {
                mem: old(self)@.mem.update(pos as int, low_byte(data)).update(
                    add16(pos, 1) as int,
                    high_byte(data),
                ),
                ..old(self)@
            }),
    {
        let hi = high_of(data);
        let lo = low_of(data);
        self.mem_write(pos, lo);
        let next = wrap_add16(pos, 1);
        self.mem_write(next, hi);
    }

    /// Stack push: the byte goes to the stack-page cell the stack
    /// pointer names, and the pointer descends by one, wrapping.
    fn stack_push(&mut self, byte: u8)
        requires
            old(self).wf(),
        ensures
            final(self).wf(),
            final(self)@ == spec_push(old(self)@, byte),
    {
        let addr = STACK_BASE + self.stack_pointer as u16;
        self.mem_write(addr, byte);
        self.stack_pointer = wrap_sub8(self.stack_pointer, 1);
    }

    /// Stack pop: the pointer ascends by one, wrapping, and the byte
    /// at the cell it then names comes back; the exact inverse of a
    /// push.
    fn stack_pop(&mut self) -> (b: u8)
        requires
            old(self).wf(),
        ensures
            final(self).wf(),
            final(self)@ == spec_pop_state(old(self)@),
            b == spec_pop_byte(old(self)@),
    {
        self.stack_pointer = wrap_add8(self.stack_pointer, 1);
        let addr = STACK_BASE + self.stack_pointer as u16;
        self.mem_read(addr)
    }

    /// The shared flag-update rule: sets exactly the Zero and Negative
    /// bits from the produced value and leaves all other status bits
    /// untouched. Every register-producing instruction calls through
    /// here; flag computation is never duplicated per instruction.
    fn update_zero_and_negative_flags(&mut self, result: u8)
        ensures
            final(self)@ == (CpuState {
                status: spec_update_flags(old(self)@.status, result),
                ..old(self)@
            }),
    {
        if result == 0 {
            self.status = self.status | FLAG_ZERO;
        } else {
            self.status = self.status & 0b1111_1101;
        }
        if result & FLAG_NEGATIVE != 0 {
            self.status = self.status | FLAG_NEGATIVE;
        } else {
            self.status = self.status & 0b0111_1111;
        }
    }

    /// The addressing-mode resolver for modes that name an operand:
    /// computes the effective address from the operand bytes at the
    /// program counter and the current registers, without advancing
    /// the program counter.
    fn resolve_operand(&self, mode: &AddressingMode) -> (addr: u16)
        requires
            self.wf(),
            *mode != AddressingMode::NoneAddressing,
        ensures
            addr == spec_operand_address(self@, *mode),
    {
        match mode {
            AddressingMode::Immediate => self.program_counter,
            AddressingMode::ZeroPage => self.mem_read(self.program_counter) as u16,
            AddressingMode::ZeroPage_X => {
                let pos = self.mem_read(self.program_counter);
                wrap_add8(pos, self.register_x) as u16
            },
            AddressingMode::ZeroPage_Y => {
                let pos = self.mem_read(self.program_counter);
                wrap_add8(pos, self.register_y) as u16
            },
            AddressingMode::Absolute => self.mem_read_u16(self.program_counter),
            AddressingMode::Absolute_X => {
                let base = self.mem_read_u16(self.program_counter);
                wrap_add16(base, self.register_x as u16)
            },
            AddressingMode::Absolute_Y => {
                let base = self.mem_read_u16(self.program_counter);
                wrap_add16(base, self.register_y as u16)
            },
            AddressingMode::Indirect => {
                let base = self.mem_read(self.program_counter);
                let lo = self.mem_read(base as u16);
                let hi = self.mem_read(wrap_add8(base, 1) as u16);
                word_of(hi, lo)
            },
            AddressingMode::Indirect_X => {
                let base = self.mem_read(self.program_counter);
                let ptr = wrap_add8(base, self.register_x);
                let lo = self.mem_read(ptr as u16);
                let hi = self.mem_read(wrap_add8(ptr, 1) as u16);
                word_of(hi, lo)
            },
            AddressingMode::Indirect_Y => {
                let base = self.mem_read(self.program_counter);
                let lo = self.mem_read(base as u16);
                let hi = self.mem_read(wrap_add8(base, 1) as u16);
                let deref_base = word_of(hi, lo);
                wrap_add16(deref_base, self.register_y as u16)
            },
            AddressingMode::NoneAddressing => {
                // unreachable: the precondition excludes the implied mode
                proof {
                    assert(false);
                }
                0
            },
        }
    }

    /// The public face of the resolver: the implied mode has no
    /// operand, so handing it here is a table-construction defect and
    /// fails loudly with `InvalidAddressingMode`, never a silent zero.
    pub fn get_operand_address(&self, mode: &AddressingMode) -> (r: Result<u16, CpuError>)
        requires
            self.wf(),
        ensures
            *mode == AddressingMode::NoneAddressing ==> r == Err::<u16, CpuError>(
                CpuError::InvalidAddressingMode,
            ),
            *mode != AddressingMode::NoneAddressing ==> r == Ok::<u16, CpuError>(
                spec_operand_address(self@, *mode),
            ),
    {
        match mode {
            AddressingMode::NoneAddressing => Err(CpuError::InvalidAddressingMode),
            _ => Ok(self.resolve_operand(mode)),
        }
    }

    /// Operand bytes a mode consumes after the opcode byte: what the
    /// dispatcher skips once a non-control instruction has executed.
    pub fn get_address_size(&self, mode: &AddressingMode) -> (size: u16)
        ensures
            size == spec_operand_size(*mode),
    {
        match mode {
            AddressingMode::Immediate => 1,
            AddressingMode::ZeroPage => 1,
            AddressingMode::ZeroPage_X => 1,
            AddressingMode::ZeroPage_Y => 1,
            AddressingMode::Absolute => 2,
            AddressingMode::Absolute_X => 2,
            AddressingMode::Absolute_Y => 2,
            AddressingMode::Indirect => 1,
            AddressingMode::Indirect_X => 1,
            AddressingMode::Indirect_Y => 1,
            AddressingMode::NoneAddressing => 0,
        }
    }

    /// The dispatcher's generic advance: skip the operand bytes of the
    /// instruction just executed.
    fn advance_pc(&mut self, mode: &AddressingMode)
        ensures
            final(self)@ == spec_advance(old(self)@, *mode),
    {
        let size = self.get_address_size(mode);
        self.program_counter = wrap_add16(self.program_counter, size);
    }

    /// Load accumulator: A takes the byte at the operand address, and
    /// the shared flag rule records it.
    fn lda(&mut self, mode: &AddressingMode)
        requires
            old(self).wf(),
            *mode != AddressingMode::NoneAddressing,
        ensures
            final(self).wf(),
            final(self)@ == spec_set_a(old(self)@, spec_loaded_byte(old(self)@, *mode)),
    {
        let addr = self.resolve_operand(mode);
        let value = self.mem_read(addr);
        self.register_a = value;
        self.update_zero_and_negative_flags(value);
    }

    /// Load Y: Y takes the byte at the operand address, and the shared
    /// flag rule records it.
    fn ldy(&mut self, mode: &AddressingMode)
        requires
            old(self).wf(),
            *mode != AddressingMode::NoneAddressing,
        ensures
            final(self).wf(),
            final(self)@ == spec_set_y(old(self)@, spec_loaded_byte(old(self)@, *mode)),
    {
        let addr = self.resolve_operand(mode);
        let value = self.mem_read(addr);
        self.register_y = value;
        self.update_zero_and_negative_flags(value);
    }

    /// Load X: X takes the byte at the operand address, and the shared
    /// flag rule records it.
    fn ldx(&mut self, mode: &AddressingMode)
        requires
            old(self).wf(),
            *mode != AddressingMode::NoneAddressing,
        ensures
            final(self).wf(),
            final(self)@ == spec_set_x(old(self)@, spec_loaded_byte(old(self)@, *mode)),
    {
        let addr = self.resolve_operand(mode);
        let value = self.mem_read(addr);
        self.register_x = value;
        self.update_zero_and_negative_flags(value);
    }

    /// Transfer A to X; flags record the transferred value.
    fn tax(&mut self)
        requires
            old(self).wf(),
        ensures
            final(self).wf(),
            final(self)@ == spec_set_x(old(self)@, old(self)@.a),
    {
        let value = self.register_a;
        self.register_x = value;
        self.update_zero_and_negative_flags(value);
    }

    /// Transfer X to A; flags record the transferred value.
    fn txa(&mut self)
        requires
            old(self).wf(),
        ensures
            final(self).wf(),
            final(self)@ == spec_set_a(old(self)@, old(self)@.x),
    {
        let value = self.register_x;
        self.register_a = value;
        self.update_zero_and_negative_flags(value);
    }

    /// Increment X modulo 256; flags record the incremented value.
    fn inx(&mut self)
        requires
            old(self).wf(),
        ensures
            final(self).wf(),
            final(self)@ == spec_set_x(old(self)@, add8(old(self)@.x, 1)),
    {
        let value = wrap_add8(self.register_x, 1);
        self.register_x = value;
        self.update_zero_and_negative_flags(value);
    }

    /// Store A at the operand address; registers and flags untouched.
    fn sta(&mut self, mode: &AddressingMode)
        requires
            old(self).wf(),
            *mode != AddressingMode::NoneAddressing,
        ensures
            final(self).wf(),
            final(self)@ == spec_store(old(self)@, *mode, old(self)@.a),
    {
        let addr = self.resolve_operand(mode);
        let value = self.register_a;
        self.mem_write(addr, value);
    }

    /// Store X at the operand address; registers and flags untouched.
    fn stx(&mut self, mode: &AddressingMode)
        requires
            old(self).wf(),
            *mode != AddressingMode::NoneAddressing,
        ensures
            final(self).wf(),
            final(self)@ == spec_store(old(self)@, *mode, old(self)@.x),
    {
        let addr = self.resolve_operand(mode);
        let value = self.register_x;
        self.mem_write(addr, value);
    }

    /// Store Y at the operand address; registers and flags untouched.
    fn sty(&mut self, mode: &AddressingMode)
        requires
            old(self).wf(),
            *mode != AddressingMode::NoneAddressing,
        ensures
            final(self).wf(),
            final(self)@ == spec_store(old(self)@, *mode, old(self)@.y),
    {
        let addr = self.resolve_operand(mode);
        let value = self.register_y;
        self.mem_write(addr, value);
    }

    /// Jump: the program counter takes the operand address; the
    /// dispatcher's generic advance is bypassed.
    fn jmp(&mut self, mode: &AddressingMode)
        requires
            old(self).wf(),
            *mode != AddressingMode::NoneAddressing,
        ensures
            final(self).wf(),
            final(self)@ == (CpuState {
                pc: spec_operand_address(old(self)@, *mode),
                ..old(self)@
            }),
    {
        let addr = self.resolve_operand(mode);
        self.program_counter = addr;
    }

    /// Call: skip the operand bytes, push the address one before the
    /// skipped-to point (high byte first), and transfer control to the
    /// operand address as resolved at the advanced program counter.
    fn jsr(&mut self, mode: &AddressingMode)
        requires
            old(self).wf(),
            *mode != AddressingMode::NoneAddressing,
        ensures
            final(self).wf(),
            final(self)@ == spec_jsr(old(self)@, *mode),
    {
        let size = self.get_address_size(mode);
        self.program_counter = wrap_add16(self.program_counter, size);
        let addr = self.resolve_operand(mode);
        let save_addr = wrap_sub16(self.program_counter, 1);
        let hi = high_of(save_addr);
        let lo = low_of(save_addr);
        self.stack_push(hi);
        self.stack_push(lo);
        self.program_counter = addr;
    }

    /// Reset: clear the registers and flags, return the stack pointer
    /// to the top of the stack page, and read the entry point from the
    /// reset vector. Memory is untouched.
    pub fn reset(&mut self)
        requires
            old(self).wf(),
        ensures
            final(self).wf(),
            final(self)@ == spec_reset(old(self)@),
    {
        self.register_a = 0;
        self.register_x = 0;
        self.register_y = 0;
        self.status = 0;
        self.stack_pointer = STACK_RESET;
        self.program_counter = self.mem_read_u16(RESET_VECTOR);
    }

    /// Copy a program image verbatim at the load origin and point the
    /// reset vector there. An image larger than the space past the
    /// origin is refused whole with `ProgramTooLarge`: nothing is
    /// truncated, and no adjacent memory is touched.
    pub fn load(&mut self, program: Vec<u8>) -> (r: Result<(), CpuError>)
        requires
            old(self).wf(),
        ensures
            final(self).wf(),
            program@.len() <= MAX_PROGRAM_LEN ==> (r == Ok::<(), CpuError>(()) && final(self)@
                == (CpuState { mem: spec_load_mem(old(self)@.mem, program@), ..old(self)@ })),
            program@.len() > MAX_PROGRAM_LEN ==> (r == Err::<(), CpuError>(
                CpuError::ProgramTooLarge,
            ) && final(self)@ == old(self)@),
    {
        if program.len() > MAX_PROGRAM_LEN {
            return Err(CpuError::ProgramTooLarge);
        }
        let ghost s0 = self@;
        let mut i: usize = 0;
        while i < program.len()
            invariant
                self.wf(),
                program@.len() <= MAX_PROGRAM_LEN,
                i <= program@.len(),
                self@ == (CpuState { mem: self@.mem, ..s0 }),
                forall|j: int| 0 <= j < i ==> self@.mem[LOAD_ORIGIN + j] == program@[j],
                forall|j: int|
                    0 <= j < MEMORY_SIZE && !(LOAD_ORIGIN <= j < LOAD_ORIGIN + i)
                        ==> self@.mem[j] == s0.mem[j],
            decreases program@.len() - i,
        {
            let byte = program[i];
            self.mem_write(LOAD_ORIGIN + (i as u16), byte);
            i = i + 1;
        }
        self.mem_write_u16(RESET_VECTOR, LOAD_ORIGIN);
        proof {
            assert(self@.mem =~= spec_load_mem(s0.mem, program@));
        }
        Ok(())
    }

    /// Load a program and reset: the standard initialization. On
    /// success the machine stands at the load origin with cleared
    /// registers, ready to run.
    pub fn init(&mut self, program: Vec<u8>) -> (r: Result<(), CpuError>)
        requires
            old(self).wf(),
        ensures
            final(self).wf(),
            program@.len() <= MAX_PROGRAM_LEN ==> (r == Ok::<(), CpuError>(()) && final(self)@
                == spec_reset(
                (CpuState { mem: spec_load_mem(old(self)@.mem, program@), ..old(self)@ }),
            ) && final(self)@.pc == LOAD_ORIGIN),
            program@.len() > MAX_PROGRAM_LEN ==> (r == Err::<(), CpuError>(
                CpuError::ProgramTooLarge,
            ) && final(self)@ == old(self)@),
    {
        match self.load(program) {
            Err(e) => Err(e),
            Ok(_) => {
                self.reset();
                proof {
                    lemma_word_split_roundtrip(LOAD_ORIGIN);
                }
                Ok(())
            },
        }
    }

    /// Return: pop the low then the high byte of the saved address,
    /// reassemble it, and resume one past it.
    fn rts(&mut self)
        requires
            old(self).wf(),
        ensures
            final(self).wf(),
            final(self)@ == spec_rts(old(self)@),
    {
        let lo = self.stack_pop();
        let hi = self.stack_pop();
        let popped = word_of(hi, lo);
        self.program_counter = wrap_add16(popped, 1);
    }

    /// Execute exactly one instruction: fetch the opcode at the
    /// program counter, advance past it, look it up in the opcode
    /// table, execute, and for non-control instructions skip the
    /// operand bytes. The result reports whether the machine is still
    /// running, has executed the halt instruction, or fetched a byte
    /// with no table entry — which stops the run, registers and
    /// memory untouched, never silently skipped.
    #[verifier::rlimit(60)]
    pub fn step(&mut self) -> (r: Result<StepOutcome, CpuError>)
        requires
            old(self).wf(),
        ensures
            final(self).wf(),
            final(self)@ == spec_step(old(self)@).state,
            r == spec_step(old(self)@).outcome,
    {
        let opcode = self.mem_read(self.program_counter);
        self.program_counter = wrap_add16(self.program_counter, 1);
        proof {
            lemma_table_consistent(opcode);
        }
        match decode(opcode) {
            None => Err(CpuError::UnsupportedOpcode(opcode)),
            Some((mnemonic, mode)) => match mnemonic {
                Mnemonic::Brk => Ok(StepOutcome::Halted),
                Mnemonic::Lda => {
                    self.lda(&mode);
                    self.advance_pc(&mode);
                    Ok(StepOutcome::Running)
                },
                Mnemonic::Ldx => {
                    self.ldx(&mode);
                    self.advance_pc(&mode);
                    Ok(StepOutcome::Running)
                },
                Mnemonic::Ldy => {
                    self.ldy(&mode);
                    self.advance_pc(&mode);
                    Ok(StepOutcome::Running)
                },
                Mnemonic::Sta => {
                    self.sta(&mode);
                    self.advance_pc(&mode);
                    Ok(StepOutcome::Running)
                },
                Mnemonic::Stx => {
                    self.stx(&mode);
                    self.advance_pc(&mode);
                    Ok(StepOutcome::Running)
                },
                Mnemonic::Sty => {
                    self.sty(&mode);
                    self.advance_pc(&mode);
                    Ok(StepOutcome::Running)
                },
                Mnemonic::Tax => {
                    self.tax();
                    self.advance_pc(&mode);
                    Ok(StepOutcome::Running)
                },
                Mnemonic::Txa => {
                    self.txa();
                    self.advance_pc(&mode);
                    Ok(StepOutcome::Running)
                },
                Mnemonic::Inx => {
                    self.inx();
                    self.advance_pc(&mode);
                    Ok(StepOutcome::Running)
                },
                Mnemonic::Jmp => {
                    self.jmp(&mode);
                    Ok(StepOutcome::Running)
                },
                Mnemonic::Jsr => {
                    self.jsr(&mode);
                    Ok(StepOutcome::Running)
                },
                Mnemonic::Rts => {
                    self.rts();
                    Ok(StepOutcome::Running)
                },
            },
        }
    }

    /// The all-in-one run loop: step the machine until the halt
    /// instruction stops it, an unsupported opcode stops it with an
    /// error, or the step bound runs out.
    #[verifier::loop_isolation(false)]
    pub fn run(&mut self) -> (r: Result<(), CpuError>)
        requires
            old(self).wf(),
        ensures
            final(self).wf(),
            run_post(old(self)@, final(self)@, r),
    {
        let ghost s0 = self@;
        let mut fuel: u64 = RUN_STEP_LIMIT;
        loop
            invariant
                self.wf(),
                fuel <= RUN_STEP_LIMIT,
                self@ == iter_step(s0, (RUN_STEP_LIMIT - fuel) as nat),
                runs_for(s0, (RUN_STEP_LIMIT - fuel) as nat),
            decreases fuel,
        {
            let ghost n = (RUN_STEP_LIMIT - fuel) as nat;
            if fuel == 0 {
                return Ok(());
            }
            fuel = fuel - 1;
            match self.step() {
                Ok(StepOutcome::Running) => {
                    proof {
                        assert(self@ == iter_step(s0, n + 1));
                        assert forall|m: nat| m < n + 1 implies #[trigger] spec_step(
                            iter_step(s0, m),
                        ).outcome == Ok::<StepOutcome, CpuError>(StepOutcome::Running) by {
                            if m < n {
                                assert(spec_step(iter_step(s0, m)).outcome == Ok::<
                                    StepOutcome,
                                    CpuError,
                                >(StepOutcome::Running));
                            }
                        }
                    }
                },
                Ok(StepOutcome::Halted) => {
                    return Ok(());
                },
                Err(e) => {
                    return Err(e);
                },
            }
        }
    }

    /// The one-shot convenience path: load the program, reset, and
    /// run to halt, error, or the step bound.
    pub fn load_and_run(&mut self, program: Vec<u8>) -> (r: Result<(), CpuError>)
        requires
            old(self).wf(),
        ensures
            final(self).wf(),
            program@.len() <= MAX_PROGRAM_LEN ==> run_post(
                spec_reset(
                    (CpuState { mem: spec_load_mem(old(self)@.mem, program@), ..old(self)@ }),
                ),
                final(self)@,
                r,
            ),
            program@.len() > MAX_PROGRAM_LEN ==> (r == Err::<(), CpuError>(
                CpuError::ProgramTooLarge,
            ) && final(self)@ == old(self)@),
    {
        match self.init(program) {
            Err(e) => Err(e),
            Ok(_) => self.run(),
        }
    }
}

} // verus!
