//! The instruction-set surface: addressing modes, mnemonics, and the
//! opcode table mapping each opcode byte to a (mnemonic, mode) pair.
//!
//! The table is partial: an opcode byte without an entry is an
//! `UnsupportedOpcode` condition for the dispatcher, never a no-op.

use vstd::prelude::*;

verus! {

/// How an instruction names its operand: the rule that turns the bytes
/// following the opcode (and the current registers) into an effective
/// address. `NoneAddressing` marks implied-operand instructions, which
/// carry no operand bytes at all.
#[allow(non_camel_case_types)]
#[derive(Clone, Copy, Debug, PartialEq, Eq, Structural)]
pub enum AddressingMode {
    Immediate,
    ZeroPage,
    ZeroPage_X,
    ZeroPage_Y,
    Absolute,
    Absolute_X,
    Absolute_Y,
    Indirect,
    Indirect_X,
    Indirect_Y,
    NoneAddressing,
}

/// The mnemonics the dispatcher implements.
#[derive(Clone, Copy, Debug, PartialEq, Eq, Structural)]
pub enum Mnemonic {
    Lda,
    Ldx,
    Ldy,
    Sta,
    Stx,
    Sty,
    Tax,
    Txa,
    Inx,
    Jmp,
    Jsr,
    Rts,
    Brk,
}

/// Whether a mnemonic reads or writes memory through a resolved operand
/// address. Implied-operand instructions (register transfers, increment,
/// return, halt) do not.
pub open spec fn uses_operand(m: Mnemonic) -> bool {
    match m {
        Mnemonic::Lda | Mnemonic::Ldx | Mnemonic::Ldy => true,
        Mnemonic::Sta | Mnemonic::Stx | Mnemonic::Sty => true,
        Mnemonic::Jmp | Mnemonic::Jsr => true,
        Mnemonic::Tax | Mnemonic::Txa | Mnemonic::Inx | Mnemonic::Rts | Mnemonic::Brk => false,
    }
}

/// Whether a mnemonic produces a value into the accumulator.
pub open spec fn writes_a(m: Mnemonic) -> bool {
    m == Mnemonic::Lda || m == Mnemonic::Txa
}

/// Whether a mnemonic produces a value into the X register.
pub open spec fn writes_x(m: Mnemonic) -> bool {
    m == Mnemonic::Ldx || m == Mnemonic::Tax || m == Mnemonic::Inx
}

/// Whether a mnemonic produces a value into the Y register.
pub open spec fn writes_y(m: Mnemonic) -> bool {
    m == Mnemonic::Ldy
}

/// The number of operand bytes a mode consumes after the opcode byte:
/// the amount the dispatcher skips once a non-control instruction has
/// executed.
pub open spec fn spec_operand_size(mode: AddressingMode) -> u16 {
    match mode {
        AddressingMode::Immediate => 1,
        AddressingMode::ZeroPage => 1,
        AddressingMode::ZeroPage_X => 1,
        AddressingMode::ZeroPage_Y => 1,
        AddressingMode::Absolute => 2,
        AddressingMode::Absolute_X => 2,
        AddressingMode::Absolute_Y => 2,
        AddressingMode::Indirect => 1,
        AddressingMode::Indirect_X => 1,
        AddressingMode::Indirect_Y => 1,
        AddressingMode::NoneAddressing => 0,
    }
}

/// The opcode table: each supported opcode byte decodes to a mnemonic
/// and the addressing mode of that particular encoding; every other
/// byte decodes to `None`.
pub open spec fn spec_decode(op: u8) -> Option<(Mnemonic, AddressingMode)> {
    match op {
        0xA9 => Some((Mnemonic::Lda, AddressingMode::Immediate)),
        0xA5 => Some((Mnemonic::Lda, AddressingMode::ZeroPage)),
        0xB5 => Some((Mnemonic::Lda, AddressingMode::ZeroPage_X)),
        0xAD => Some((Mnemonic::Lda, AddressingMode::Absolute)),
        0xBD => Some((Mnemonic::Lda, AddressingMode::Absolute_X)),
        0xB9 => Some((Mnemonic::Lda, AddressingMode::Absolute_Y)),
        0xA1 => Some((Mnemonic::Lda, AddressingMode::Indirect_X)),
        0xB1 => Some((Mnemonic::Lda, AddressingMode::Indirect_Y)),
        0xA0 => Some((Mnemonic::Ldy, AddressingMode::Immediate)),
        0xA2 => Some((Mnemonic::Ldx, AddressingMode::Immediate)),
        0x85 => Some((Mnemonic::Sta, AddressingMode::ZeroPage)),
        0x95 => Some((Mnemonic::Sta, AddressingMode::ZeroPage_X)),
        0x8E => Some((Mnemonic::Stx, AddressingMode::Absolute)),
        0x86 => Some((Mnemonic::Stx, AddressingMode::ZeroPage)),
        0x96 => Some((Mnemonic::Stx, AddressingMode::ZeroPage_Y)),
        0x8C => Some((Mnemonic::Sty, AddressingMode::Absolute)),
        0x84 => Some((Mnemonic::Sty, AddressingMode::ZeroPage)),
        0x94 => Some((Mnemonic::Sty, AddressingMode::ZeroPage_X)),
        0x4C => Some((Mnemonic::Jmp, AddressingMode::Absolute)),
        0x6C => Some((Mnemonic::Jmp, AddressingMode::Indirect)),
        0x20 => Some((Mnemonic::Jsr, AddressingMode::Absolute)),
        0x40 => Some((Mnemonic::Rts, AddressingMode::NoneAddressing)),
        0xAA => Some((Mnemonic::Tax, AddressingMode::NoneAddressing)),
        0x8A => Some((Mnemonic::Txa, AddressingMode::NoneAddressing)),
        0xE8 => Some((Mnemonic::Inx, AddressingMode::NoneAddressing)),
        0x00 => Some((Mnemonic::Brk, AddressingMode::NoneAddressing)),
        _ => None,
    }
}

/// The opcode table never pairs an operand-using mnemonic with the
/// implied addressing mode, so the operand resolver is never handed
/// `NoneAddressing` by the dispatcher: the `InvalidAddressingMode`
/// failure path is unreachable from decoded instructions.
pub proof fn lemma_table_consistent(op: u8)
    ensures
        spec_decode(op) matches Some(entry) ==> (uses_operand(entry.0) ==> entry.1
            != AddressingMode::NoneAddressing),
{
}

pub fn decode(op: u8) -> (r: Option<(Mnemonic, AddressingMode)>)
    ensures
        r == spec_decode(op),
{
    match op {
        0xA9 => Some((Mnemonic::Lda, AddressingMode::Immediate)),
        0xA5 => Some((Mnemonic::Lda, AddressingMode::ZeroPage)),
        0xB5 => Some((Mnemonic::Lda, AddressingMode::ZeroPage_X)),
        0xAD => Some((Mnemonic::Lda, AddressingMode::Absolute)),
        0xBD => Some((Mnemonic::Lda, AddressingMode::Absolute_X)),
        0xB9 => Some((Mnemonic::Lda, AddressingMode::Absolute_Y)),
        0xA1 => Some((Mnemonic::Lda, AddressingMode::Indirect_X)),
        0xB1 => Some((Mnemonic::Lda, AddressingMode::Indirect_Y)),
        0xA0 => Some((Mnemonic::Ldy, AddressingMode::Immediate)),
        0xA2 => Some((Mnemonic::Ldx, AddressingMode::Immediate)),
        0x85 => Some((Mnemonic::Sta, AddressingMode::ZeroPage)),
        0x95 => Some((Mnemonic::Sta, AddressingMode::ZeroPage_X)),
        0x8E => Some((Mnemonic::Stx, AddressingMode::Absolute)),
        0x86 => Some((Mnemonic::Stx, AddressingMode::ZeroPage)),
        0x96 => Some((Mnemonic::Stx, AddressingMode::ZeroPage_Y)),
        0x8C => Some((Mnemonic::Sty, AddressingMode::Absolute)),
        0x84 => Some((Mnemonic::Sty, AddressingMode::ZeroPage)),
        0x94 => Some((Mnemonic::Sty, AddressingMode::ZeroPage_X)),
        0x4C => Some((Mnemonic::Jmp, AddressingMode::Absolute)),
        0x6C => Some((Mnemonic::Jmp, AddressingMode::Indirect)),
        0x20 => Some((Mnemonic::Jsr, AddressingMode::Absolute)),
        0x40 => Some((Mnemonic::Rts, AddressingMode::NoneAddressing)),
        0xAA => Some((Mnemonic::Tax, AddressingMode::NoneAddressing)),
        0x8A => Some((Mnemonic::Txa, AddressingMode::NoneAddressing)),
        0xE8 => Some((Mnemonic::Inx, AddressingMode::NoneAddressing)),
        0x00 => Some((Mnemonic::Brk, AddressingMode::NoneAddressing)),
        _ => None,
    }
}

} // verus!
