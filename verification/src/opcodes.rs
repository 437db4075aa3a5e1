//! The instruction set: mnemonics, addressing modes, and the table that maps
//! each documented opcode byte to its descriptor.

use vstd::prelude::*;

verus! {

/// How an instruction finds its operand.
#[derive(Clone, Copy, Debug, PartialEq, Eq)]
pub enum Mode {
    Implied,
    Accumulator,
    Immediate,
    Absolute,
    AbsoluteX,
    AbsoluteY,
    ZeroPage,
    ZeroPageX,
    ZeroPageY,
    Indirect,
    IndirectX,
    IndirectY,
    Relative,
}

/// The documented 6502 instructions.
#[derive(Clone, Copy, Debug, PartialEq, Eq)]
pub enum Mnemonic {
    Adc,
    And,
    Asl,
    Bcc,
    Bcs,
    Beq,
    Bit,
    Bmi,
    Bne,
    Bpl,
    Brk,
    Bvc,
    Bvs,
    Clc,
    Cld,
    Cli,
    Clv,
    Cmp,
    Cpx,
    Cpy,
    Dec,
    Dex,
    Dey,
    Eor,
    Inc,
    Inx,
    Iny,
    Jmp,
    Jsr,
    Lda,
    Ldx,
    Ldy,
    Lsr,
    Nop,
    Ora,
    Pha,
    Php,
    Pla,
    Plp,
    Rol,
    Ror,
    Rti,
    Rts,
    Sbc,
    Sec,
    Sed,
    Sei,
    Sta,
    Stx,
    Sty,
    Tax,
    Tay,
    Tsx,
    Txa,
    Txs,
    Tya,
}

/// One entry of the opcode table.
#[derive(Clone, Copy, Debug, PartialEq, Eq)]
pub struct Opcode {
    pub code: u8,
    pub name: Mnemonic,
    pub mode: Mode,
    pub bytes: u8,
    pub cycles: u8,
}

/// The length in bytes of an instruction with the given addressing mode:
/// the opcode byte and its operand bytes.
pub open spec fn spec_mode_length(mode: Mode) -> u8 {
    match mode {
        Mode::Implied | Mode::Accumulator => 1,
        Mode::Absolute | Mode::AbsoluteX | Mode::AbsoluteY | Mode::Indirect => 3,
        _ => 2,
    }
}

/// An entry of the table.
pub open spec fn entry(code: u8, name: Mnemonic, mode: Mode, bytes: u8, cycles: u8) -> Opcode {
    Opcode { code, name, mode, bytes, cycles }
}

/// The opcode table. A byte outside the documented set has no entry.
pub open spec fn spec_get_opcode(b: u8) -> Option<Opcode> {
    match b {
        0x00 => Some(entry(0x00, Mnemonic::Brk, Mode::Implied, 1, 7)),
        0x01 => Some(entry(0x01, Mnemonic::Ora, Mode::IndirectX, 2, 6)),
        0x05 => Some(entry(0x05, Mnemonic::Ora, Mode::ZeroPage, 2, 3)),
        0x06 => Some(entry(0x06, Mnemonic::Asl, Mode::ZeroPage, 2, 5)),
        0x08 => Some(entry(0x08, Mnemonic::Php, Mode::Implied, 1, 3)),
        0x09 => Some(entry(0x09, Mnemonic::Ora, Mode::Immediate, 2, 2)),
        0x0A => Some(entry(0x0A, Mnemonic::Asl, Mode::Accumulator, 1, 2)),
        0x0D => Some(entry(0x0D, Mnemonic::Ora, Mode::Absolute, 3, 4)),
        0x0E => Some(entry(0x0E, Mnemonic::Asl, Mode::Absolute, 3, 6)),
        0x10 => Some(entry(0x10, Mnemonic::Bpl, Mode::Relative, 2, 2)),
        0x11 => Some(entry(0x11, Mnemonic::Ora, Mode::IndirectY, 2, 5)),
        0x15 => Some(entry(0x15, Mnemonic::Ora, Mode::ZeroPageX, 2, 4)),
        0x16 => Some(entry(0x16, Mnemonic::Asl, Mode::ZeroPageX, 2, 6)),
        0x18 => Some(entry(0x18, Mnemonic::Clc, Mode::Implied, 1, 2)),
        0x19 => Some(entry(0x19, Mnemonic::Ora, Mode::AbsoluteY, 3, 4)),
        0x1D => Some(entry(0x1D, Mnemonic::Ora, Mode::AbsoluteX, 3, 4)),
        0x1E => Some(entry(0x1E, Mnemonic::Asl, Mode::AbsoluteX, 3, 7)),
        0x20 => Some(entry(0x20, Mnemonic::Jsr, Mode::Absolute, 3, 6)),
        0x21 => Some(entry(0x21, Mnemonic::And, Mode::IndirectX, 2, 6)),
        0x24 => Some(entry(0x24, Mnemonic::Bit, Mode::ZeroPage, 2, 3)),
        0x25 => Some(entry(0x25, Mnemonic::And, Mode::ZeroPage, 2, 3)),
        0x26 => Some(entry(0x26, Mnemonic::Rol, Mode::ZeroPage, 2, 5)),
        0x28 => Some(entry(0x28, Mnemonic::Plp, Mode::Implied, 1, 4)),
        0x29 => Some(entry(0x29, Mnemonic::And, Mode::Immediate, 2, 2)),
        0x2A => Some(entry(0x2A, Mnemonic::Rol, Mode::Accumulator, 1, 2)),
        0x2C => Some(entry(0x2C, Mnemonic::Bit, Mode::Absolute, 3, 4)),
        0x2D => Some(entry(0x2D, Mnemonic::And, Mode::Absolute, 3, 4)),
        0x2E => Some(entry(0x2E, Mnemonic::Rol, Mode::Absolute, 3, 6)),
        0x30 => Some(entry(0x30, Mnemonic::Bmi, Mode::Relative, 2, 2)),
        0x31 => Some(entry(0x31, Mnemonic::And, Mode::IndirectY, 2, 5)),
        0x35 => Some(entry(0x35, Mnemonic::And, Mode::ZeroPageX, 2, 4)),
        0x36 => Some(entry(0x36, Mnemonic::Rol, Mode::ZeroPageX, 2, 6)),
        0x38 => Some(entry(0x38, Mnemonic::Sec, Mode::Implied, 1, 2)),
        0x39 => Some(entry(0x39, Mnemonic::And, Mode::AbsoluteY, 3, 4)),
        0x3D => Some(entry(0x3D, Mnemonic::And, Mode::AbsoluteX, 3, 4)),
        0x3E => Some(entry(0x3E, Mnemonic::Rol, Mode::AbsoluteX, 3, 7)),
        0x40 => Some(entry(0x40, Mnemonic::Rti, Mode::Implied, 1, 6)),
        0x41 => Some(entry(0x41, Mnemonic::Eor, Mode::IndirectX, 2, 6)),
        0x45 => Some(entry(0x45, Mnemonic::Eor, Mode::ZeroPage, 2, 3)),
        0x46 => Some(entry(0x46, Mnemonic::Lsr, Mode::ZeroPage, 2, 5)),
        0x48 => Some(entry(0x48, Mnemonic::Pha, Mode::Implied, 1, 3)),
        0x49 => Some(entry(0x49, Mnemonic::Eor, Mode::Immediate, 2, 2)),
        0x4A => Some(entry(0x4A, Mnemonic::Lsr, Mode::Accumulator, 1, 2)),
        0x4C => Some(entry(0x4C, Mnemonic::Jmp, Mode::Absolute, 3, 3)),
        0x4D => Some(entry(0x4D, Mnemonic::Eor, Mode::Absolute, 3, 4)),
        0x4E => Some(entry(0x4E, Mnemonic::Lsr, Mode::Absolute, 3, 6)),
        0x50 => Some(entry(0x50, Mnemonic::Bvc, Mode::Relative, 2, 2)),
        0x51 => Some(entry(0x51, Mnemonic::Eor, Mode::IndirectY, 2, 5)),
        0x55 => Some(entry(0x55, Mnemonic::Eor, Mode::ZeroPageX, 2, 4)),
        0x56 => Some(entry(0x56, Mnemonic::Lsr, Mode::ZeroPageX, 2, 6)),
        0x58 => Some(entry(0x58, Mnemonic::Cli, Mode::Implied, 1, 2)),
        0x59 => Some(entry(0x59, Mnemonic::Eor, Mode::AbsoluteY, 3, 4)),
        0x5D => Some(entry(0x5D, Mnemonic::Eor, Mode::AbsoluteX, 3, 4)),
        0x5E => Some(entry(0x5E, Mnemonic::Lsr, Mode::AbsoluteX, 3, 7)),
        0x60 => Some(entry(0x60, Mnemonic::Rts, Mode::Implied, 1, 6)),
        0x61 => Some(entry(0x61, Mnemonic::Adc, Mode::IndirectX, 2, 6)),
        0x65 => Some(entry(0x65, Mnemonic::Adc, Mode::ZeroPage, 2, 3)),
        0x66 => Some(entry(0x66, Mnemonic::Ror, Mode::ZeroPage, 2, 5)),
        0x68 => Some(entry(0x68, Mnemonic::Pla, Mode::Implied, 1, 4)),
        0x69 => Some(entry(0x69, Mnemonic::Adc, Mode::Immediate, 2, 2)),
        0x6A => Some(entry(0x6A, Mnemonic::Ror, Mode::Accumulator, 1, 2)),
        0x6C => Some(entry(0x6C, Mnemonic::Jmp, Mode::Indirect, 3, 5)),
        0x6D => Some(entry(0x6D, Mnemonic::Adc, Mode::Absolute, 3, 4)),
        0x6E => Some(entry(0x6E, Mnemonic::Ror, Mode::Absolute, 3, 6)),
        0x70 => Some(entry(0x70, Mnemonic::Bvs, Mode::Relative, 2, 2)),
        0x71 => Some(entry(0x71, Mnemonic::Adc, Mode::IndirectY, 2, 5)),
        0x75 => Some(entry(0x75, Mnemonic::Adc, Mode::ZeroPageX, 2, 4)),
        0x76 => Some(entry(0x76, Mnemonic::Ror, Mode::ZeroPageX, 2, 6)),
        0x78 => Some(entry(0x78, Mnemonic::Sei, Mode::Implied, 1, 2)),
        0x79 => Some(entry(0x79, Mnemonic::Adc, Mode::AbsoluteY, 3, 4)),
        0x7D => Some(entry(0x7D, Mnemonic::Adc, Mode::AbsoluteX, 3, 4)),
        0x7E => Some(entry(0x7E, Mnemonic::Ror, Mode::AbsoluteX, 3, 7)),
        0x81 => Some(entry(0x81, Mnemonic::Sta, Mode::IndirectX, 2, 6)),
        0x84 => Some(entry(0x84, Mnemonic::Sty, Mode::ZeroPage, 2, 3)),
        0x85 => Some(entry(0x85, Mnemonic::Sta, Mode::ZeroPage, 2, 3)),
        0x86 => Some(entry(0x86, Mnemonic::Stx, Mode::ZeroPage, 2, 3)),
        0x88 => Some(entry(0x88, Mnemonic::Dey, Mode::Implied, 1, 2)),
        0x8A => Some(entry(0x8A, Mnemonic::Txa, Mode::Implied, 1, 2)),
        0x8C => Some(entry(0x8C, Mnemonic::Sty, Mode::Absolute, 3, 4)),
        0x8D => Some(entry(0x8D, Mnemonic::Sta, Mode::Absolute, 3, 4)),
        0x8E => Some(entry(0x8E, Mnemonic::Stx, Mode::Absolute, 3, 4)),
        0x90 => Some(entry(0x90, Mnemonic::Bcc, Mode::Relative, 2, 2)),
        0x91 => Some(entry(0x91, Mnemonic::Sta, Mode::IndirectY, 2, 6)),
        0x94 => Some(entry(0x94, Mnemonic::Sty, Mode::ZeroPageX, 2, 4)),
        0x95 => Some(entry(0x95, Mnemonic::Sta, Mode::ZeroPageX, 2, 4)),
        0x96 => Some(entry(0x96, Mnemonic::Stx, Mode::ZeroPageY, 2, 4)),
        0x98 => Some(entry(0x98, Mnemonic::Tya, Mode::Implied, 1, 2)),
        0x99 => Some(entry(0x99, Mnemonic::Sta, Mode::AbsoluteY, 3, 5)),
        0x9A => Some(entry(0x9A, Mnemonic::Txs, Mode::Implied, 1, 2)),
        0x9D => Some(entry(0x9D, Mnemonic::Sta, Mode::AbsoluteX, 3, 5)),
        0xA0 => Some(entry(0xA0, Mnemonic::Ldy, Mode::Immediate, 2, 2)),
        0xA1 => Some(entry(0xA1, Mnemonic::Lda, Mode::IndirectX, 2, 6)),
        0xA2 => Some(entry(0xA2, Mnemonic::Ldx, Mode::Immediate, 2, 2)),
        0xA4 => Some(entry(0xA4, Mnemonic::Ldy, Mode::ZeroPage, 2, 3)),
        0xA5 => Some(entry(0xA5, Mnemonic::Lda, Mode::ZeroPage, 2, 3)),
        0xA6 => Some(entry(0xA6, Mnemonic::Ldx, Mode::ZeroPage, 2, 3)),
        0xA8 => Some(entry(0xA8, Mnemonic::Tay, Mode::Implied, 1, 2)),
        0xA9 => Some(entry(0xA9, Mnemonic::Lda, Mode::Immediate, 2, 2)),
        0xAA => Some(entry(0xAA, Mnemonic::Tax, Mode::Implied, 1, 2)),
        0xAC => Some(entry(0xAC, Mnemonic::Ldy, Mode::Absolute, 3, 4)),
        0xAD => Some(entry(0xAD, Mnemonic::Lda, Mode::Absolute, 3, 4)),
        0xAE => Some(entry(0xAE, Mnemonic::Ldx, Mode::Absolute, 3, 4)),
        0xB0 => Some(entry(0xB0, Mnemonic::Bcs, Mode::Relative, 2, 2)),
        0xB1 => Some(entry(0xB1, Mnemonic::Lda, Mode::IndirectY, 2, 5)),
        0xB4 => Some(entry(0xB4, Mnemonic::Ldy, Mode::ZeroPageX, 2, 4)),
        0xB5 => Some(entry(0xB5, Mnemonic::Lda, Mode::ZeroPageX, 2, 4)),
        0xB6 => Some(entry(0xB6, Mnemonic::Ldx, Mode::ZeroPageY, 2, 4)),
        0xB8 => Some(entry(0xB8, Mnemonic::Clv, Mode::Implied, 1, 2)),
        0xB9 => Some(entry(0xB9, Mnemonic::Lda, Mode::AbsoluteY, 3, 4)),
        0xBA => Some(entry(0xBA, Mnemonic::Tsx, Mode::Implied, 1, 2)),
        0xBC => Some(entry(0xBC, Mnemonic::Ldy, Mode::AbsoluteX, 3, 4)),
        0xBD => Some(entry(0xBD, Mnemonic::Lda, Mode::AbsoluteX, 3, 4)),
        0xBE => Some(entry(0xBE, Mnemonic::Ldx, Mode::AbsoluteY, 3, 4)),
        0xC0 => Some(entry(0xC0, Mnemonic::Cpy, Mode::Immediate, 2, 2)),
        0xC1 => Some(entry(0xC1, Mnemonic::Cmp, Mode::IndirectX, 2, 6)),
        0xC4 => Some(entry(0xC4, Mnemonic::Cpy, Mode::ZeroPage, 2, 3)),
        0xC5 => Some(entry(0xC5, Mnemonic::Cmp, Mode::ZeroPage, 2, 3)),
        0xC6 => Some(entry(0xC6, Mnemonic::Dec, Mode::ZeroPage, 2, 5)),
        0xC8 => Some(entry(0xC8, Mnemonic::Iny, Mode::Implied, 1, 2)),
        0xC9 => Some(entry(0xC9, Mnemonic::Cmp, Mode::Immediate, 2, 2)),
        0xCA => Some(entry(0xCA, Mnemonic::Dex, Mode::Implied, 1, 2)),
        0xCC => Some(entry(0xCC, Mnemonic::Cpy, Mode::Absolute, 3, 4)),
        0xCD => Some(entry(0xCD, Mnemonic::Cmp, Mode::Absolute, 3, 4)),
        0xCE => Some(entry(0xCE, Mnemonic::Dec, Mode::Absolute, 3, 6)),
        0xD0 => Some(entry(0xD0, Mnemonic::Bne, Mode::Relative, 2, 2)),
        0xD1 => Some(entry(0xD1, Mnemonic::Cmp, Mode::IndirectY, 2, 5)),
        0xD5 => Some(entry(0xD5, Mnemonic::Cmp, Mode::ZeroPageX, 2, 4)),
        0xD6 => Some(entry(0xD6, Mnemonic::Dec, Mode::ZeroPageX, 2, 6)),
        0xD8 => Some(entry(0xD8, Mnemonic::Cld, Mode::Implied, 1, 2)),
        0xD9 => Some(entry(0xD9, Mnemonic::Cmp, Mode::AbsoluteY, 3, 4)),
        0xDD => Some(entry(0xDD, Mnemonic::Cmp, Mode::AbsoluteX, 3, 4)),
        0xDE => Some(entry(0xDE, Mnemonic::Dec, Mode::AbsoluteX, 3, 7)),
        0xE0 => Some(entry(0xE0, Mnemonic::Cpx, Mode::Immediate, 2, 2)),
        0xE1 => Some(entry(0xE1, Mnemonic::Sbc, Mode::IndirectX, 2, 6)),
        0xE4 => Some(entry(0xE4, Mnemonic::Cpx, Mode::ZeroPage, 2, 3)),
        0xE5 => Some(entry(0xE5, Mnemonic::Sbc, Mode::ZeroPage, 2, 3)),
        0xE6 => Some(entry(0xE6, Mnemonic::Inc, Mode::ZeroPage, 2, 5)),
        0xE8 => Some(entry(0xE8, Mnemonic::Inx, Mode::Implied, 1, 2)),
        0xE9 => Some(entry(0xE9, Mnemonic::Sbc, Mode::Immediate, 2, 2)),
        0xEA => Some(entry(0xEA, Mnemonic::Nop, Mode::Implied, 1, 2)),
        0xEC => Some(entry(0xEC, Mnemonic::Cpx, Mode::Absolute, 3, 4)),
        0xED => Some(entry(0xED, Mnemonic::Sbc, Mode::Absolute, 3, 4)),
        0xEE => Some(entry(0xEE, Mnemonic::Inc, Mode::Absolute, 3, 6)),
        0xF0 => Some(entry(0xF0, Mnemonic::Beq, Mode::Relative, 2, 2)),
        0xF1 => Some(entry(0xF1, Mnemonic::Sbc, Mode::IndirectY, 2, 5)),
        0xF5 => Some(entry(0xF5, Mnemonic::Sbc, Mode::ZeroPageX, 2, 4)),
        0xF6 => Some(entry(0xF6, Mnemonic::Inc, Mode::ZeroPageX, 2, 6)),
        0xF8 => Some(entry(0xF8, Mnemonic::Sed, Mode::Implied, 1, 2)),
        0xF9 => Some(entry(0xF9, Mnemonic::Sbc, Mode::AbsoluteY, 3, 4)),
        0xFD => Some(entry(0xFD, Mnemonic::Sbc, Mode::AbsoluteX, 3, 4)),
        0xFE => Some(entry(0xFE, Mnemonic::Inc, Mode::AbsoluteX, 3, 7)),
        _ => None,
    }
}

impl Mnemonic {
    /// The three-letter assembler name.
    pub open spec fn spec_name(self) -> Seq<char> {
        match self {
            Mnemonic::Adc => seq!['A', 'D', 'C'],
            Mnemonic::And => seq!['A', 'N', 'D'],
            Mnemonic::Asl => seq!['A', 'S', 'L'],
            Mnemonic::Bcc => seq!['B', 'C', 'C'],
            Mnemonic::Bcs => seq!['B', 'C', 'S'],
            Mnemonic::Beq => seq!['B', 'E', 'Q'],
            Mnemonic::Bit => seq!['B', 'I', 'T'],
            Mnemonic::Bmi => seq!['B', 'M', 'I'],
            Mnemonic::Bne => seq!['B', 'N', 'E'],
            Mnemonic::Bpl => seq!['B', 'P', 'L'],
            Mnemonic::Brk => seq!['B', 'R', 'K'],
            Mnemonic::Bvc => seq!['B', 'V', 'C'],
            Mnemonic::Bvs => seq!['B', 'V', 'S'],
            Mnemonic::Clc => seq!['C', 'L', 'C'],
            Mnemonic::Cld => seq!['C', 'L', 'D'],
            Mnemonic::Cli => seq!['C', 'L', 'I'],
            Mnemonic::Clv => seq!['C', 'L', 'V'],
            Mnemonic::Cmp => seq!['C', 'M', 'P'],
            Mnemonic::Cpx => seq!['C', 'P', 'X'],
            Mnemonic::Cpy => seq!['C', 'P', 'Y'],
            Mnemonic::Dec => seq!['D', 'E', 'C'],
            Mnemonic::Dex => seq!['D', 'E', 'X'],
            Mnemonic::Dey => seq!['D', 'E', 'Y'],
            Mnemonic::Eor => seq!['E', 'O', 'R'],
            Mnemonic::Inc => seq!['I', 'N', 'C'],
            Mnemonic::Inx => seq!['I', 'N', 'X'],
            Mnemonic::Iny => seq!['I', 'N', 'Y'],
            Mnemonic::Jmp => seq!['J', 'M', 'P'],
            Mnemonic::Jsr => seq!['J', 'S', 'R'],
            Mnemonic::Lda => seq!['L', 'D', 'A'],
            Mnemonic::Ldx => seq!['L', 'D', 'X'],
            Mnemonic::Ldy => seq!['L', 'D', 'Y'],
            Mnemonic::Lsr => seq!['L', 'S', 'R'],
            Mnemonic::Nop => seq!['N', 'O', 'P'],
            Mnemonic::Ora => seq!['O', 'R', 'A'],
            Mnemonic::Pha => seq!['P', 'H', 'A'],
            Mnemonic::Php => seq!['P', 'H', 'P'],
            Mnemonic::Pla => seq!['P', 'L', 'A'],
            Mnemonic::Plp => seq!['P', 'L', 'P'],
            Mnemonic::Rol => seq!['R', 'O', 'L'],
            Mnemonic::Ror => seq!['R', 'O', 'R'],
            Mnemonic::Rti => seq!['R', 'T', 'I'],
            Mnemonic::Rts => seq!['R', 'T', 'S'],
            Mnemonic::Sbc => seq!['S', 'B', 'C'],
            Mnemonic::Sec => seq!['S', 'E', 'C'],
            Mnemonic::Sed => seq!['S', 'E', 'D'],
            Mnemonic::Sei => seq!['S', 'E', 'I'],
            Mnemonic::Sta => seq!['S', 'T', 'A'],
            Mnemonic::Stx => seq!['S', 'T', 'X'],
            Mnemonic::Sty => seq!['S', 'T', 'Y'],
            Mnemonic::Tax => seq!['T', 'A', 'X'],
            Mnemonic::Tay => seq!['T', 'A', 'Y'],
            Mnemonic::Tsx => seq!['T', 'S', 'X'],
            Mnemonic::Txa => seq!['T', 'X', 'A'],
            Mnemonic::Txs => seq!['T', 'X', 'S'],
            Mnemonic::Tya => seq!['T', 'Y', 'A'],
        }
    }

    pub fn name(self) -> (s: &'static str)
        ensures
            s@ == self.spec_name(),
    {
        proof {
            reveal_strlit("ADC");
            reveal_strlit("AND");
            reveal_strlit("ASL");
            reveal_strlit("BCC");
            reveal_strlit("BCS");
            reveal_strlit("BEQ");
            reveal_strlit("BIT");
            reveal_strlit("BMI");
            reveal_strlit("BNE");
            reveal_strlit("BPL");
            reveal_strlit("BRK");
            reveal_strlit("BVC");
            reveal_strlit("BVS");
            reveal_strlit("CLC");
            reveal_strlit("CLD");
            reveal_strlit("CLI");
            reveal_strlit("CLV");
            reveal_strlit("CMP");
            reveal_strlit("CPX");
            reveal_strlit("CPY");
            reveal_strlit("DEC");
            reveal_strlit("DEX");
            reveal_strlit("DEY");
            reveal_strlit("EOR");
            reveal_strlit("INC");
            reveal_strlit("INX");
            reveal_strlit("INY");
            reveal_strlit("JMP");
            reveal_strlit("JSR");
            reveal_strlit("LDA");
            reveal_strlit("LDX");
            reveal_strlit("LDY");
            reveal_strlit("LSR");
            reveal_strlit("NOP");
            reveal_strlit("ORA");
            reveal_strlit("PHA");
            reveal_strlit("PHP");
            reveal_strlit("PLA");
            reveal_strlit("PLP");
            reveal_strlit("ROL");
            reveal_strlit("ROR");
            reveal_strlit("RTI");
            reveal_strlit("RTS");
            reveal_strlit("SBC");
            reveal_strlit("SEC");
            reveal_strlit("SED");
            reveal_strlit("SEI");
            reveal_strlit("STA");
            reveal_strlit("STX");
            reveal_strlit("STY");
            reveal_strlit("TAX");
            reveal_strlit("TAY");
            reveal_strlit("TSX");
            reveal_strlit("TXA");
            reveal_strlit("TXS");
            reveal_strlit("TYA");
        }
        let s = match self {
            Mnemonic::Adc => "ADC",
            Mnemonic::And => "AND",
            Mnemonic::Asl => "ASL",
            Mnemonic::Bcc => "BCC",
            Mnemonic::Bcs => "BCS",
            Mnemonic::Beq => "BEQ",
            Mnemonic::Bit => "BIT",
            Mnemonic::Bmi => "BMI",
            Mnemonic::Bne => "BNE",
            Mnemonic::Bpl => "BPL",
            Mnemonic::Brk => "BRK",
            Mnemonic::Bvc => "BVC",
            Mnemonic::Bvs => "BVS",
            Mnemonic::Clc => "CLC",
            Mnemonic::Cld => "CLD",
            Mnemonic::Cli => "CLI",
            Mnemonic::Clv => "CLV",
            Mnemonic::Cmp => "CMP",
            Mnemonic::Cpx => "CPX",
            Mnemonic::Cpy => "CPY",
            Mnemonic::Dec => "DEC",
            Mnemonic::Dex => "DEX",
            Mnemonic::Dey => "DEY",
            Mnemonic::Eor => "EOR",
            Mnemonic::Inc => "INC",
            Mnemonic::Inx => "INX",
            Mnemonic::Iny => "INY",
            Mnemonic::Jmp => "JMP",
            Mnemonic::Jsr => "JSR",
            Mnemonic::Lda => "LDA",
            Mnemonic::Ldx => "LDX",
            Mnemonic::Ldy => "LDY",
            Mnemonic::Lsr => "LSR",
            Mnemonic::Nop => "NOP",
            Mnemonic::Ora => "ORA",
            Mnemonic::Pha => "PHA",
            Mnemonic::Php => "PHP",
            Mnemonic::Pla => "PLA",
            Mnemonic::Plp => "PLP",
            Mnemonic::Rol => "ROL",
            Mnemonic::Ror => "ROR",
            Mnemonic::Rti => "RTI",
            Mnemonic::Rts => "RTS",
            Mnemonic::Sbc => "SBC",
            Mnemonic::Sec => "SEC",
            Mnemonic::Sed => "SED",
            Mnemonic::Sei => "SEI",
            Mnemonic::Sta => "STA",
            Mnemonic::Stx => "STX",
            Mnemonic::Sty => "STY",
            Mnemonic::Tax => "TAX",
            Mnemonic::Tay => "TAY",
            Mnemonic::Tsx => "TSX",
            Mnemonic::Txa => "TXA",
            Mnemonic::Txs => "TXS",
            Mnemonic::Tya => "TYA",
        };
        assert(s@ =~= self.spec_name());
        s
    }
}

impl Mode {
    /// The length in bytes of an instruction with this addressing mode.
    pub fn length(self) -> (n: u8)
        ensures
            n == spec_mode_length(self),
    {
        match self {
            Mode::Implied | Mode::Accumulator => 1,
            Mode::Absolute | Mode::AbsoluteX | Mode::AbsoluteY | Mode::Indirect => 3,
            _ => 2,
        }
    }
}

fn decode(b: u8) -> (r: Option<(Mnemonic, Mode, u8)>)
    ensures
        match spec_get_opcode(b) {
            Some(op) => r == Some((op.name, op.mode, op.cycles)) && op.code == b && op.bytes
                == spec_mode_length(op.mode),
            None => r is None,
        },
{
    match b {
        0x00 => Some((Mnemonic::Brk, Mode::Implied, 7u8)),
        0x01 => Some((Mnemonic::Ora, Mode::IndirectX, 6u8)),
        0x05 => Some((Mnemonic::Ora, Mode::ZeroPage, 3u8)),
        0x06 => Some((Mnemonic::Asl, Mode::ZeroPage, 5u8)),
        0x08 => Some((Mnemonic::Php, Mode::Implied, 3u8)),
        0x09 => Some((Mnemonic::Ora, Mode::Immediate, 2u8)),
        0x0A => Some((Mnemonic::Asl, Mode::Accumulator, 2u8)),
        0x0D => Some((Mnemonic::Ora, Mode::Absolute, 4u8)),
        0x0E => Some((Mnemonic::Asl, Mode::Absolute, 6u8)),
        0x10 => Some((Mnemonic::Bpl, Mode::Relative, 2u8)),
        0x11 => Some((Mnemonic::Ora, Mode::IndirectY, 5u8)),
        0x15 => Some((Mnemonic::Ora, Mode::ZeroPageX, 4u8)),
        0x16 => Some((Mnemonic::Asl, Mode::ZeroPageX, 6u8)),
        0x18 => Some((Mnemonic::Clc, Mode::Implied, 2u8)),
        0x19 => Some((Mnemonic::Ora, Mode::AbsoluteY, 4u8)),
        0x1D => Some((Mnemonic::Ora, Mode::AbsoluteX, 4u8)),
        0x1E => Some((Mnemonic::Asl, Mode::AbsoluteX, 7u8)),
        0x20 => Some((Mnemonic::Jsr, Mode::Absolute, 6u8)),
        0x21 => Some((Mnemonic::And, Mode::IndirectX, 6u8)),
        0x24 => Some((Mnemonic::Bit, Mode::ZeroPage, 3u8)),
        0x25 => Some((Mnemonic::And, Mode::ZeroPage, 3u8)),
        0x26 => Some((Mnemonic::Rol, Mode::ZeroPage, 5u8)),
        0x28 => Some((Mnemonic::Plp, Mode::Implied, 4u8)),
        0x29 => Some((Mnemonic::And, Mode::Immediate, 2u8)),
        0x2A => Some((Mnemonic::Rol, Mode::Accumulator, 2u8)),
        0x2C => Some((Mnemonic::Bit, Mode::Absolute, 4u8)),
        0x2D => Some((Mnemonic::And, Mode::Absolute, 4u8)),
        0x2E => Some((Mnemonic::Rol, Mode::Absolute, 6u8)),
        0x30 => Some((Mnemonic::Bmi, Mode::Relative, 2u8)),
        0x31 => Some((Mnemonic::And, Mode::IndirectY, 5u8)),
        0x35 => Some((Mnemonic::And, Mode::ZeroPageX, 4u8)),
        0x36 => Some((Mnemonic::Rol, Mode::ZeroPageX, 6u8)),
        0x38 => Some((Mnemonic::Sec, Mode::Implied, 2u8)),
        0x39 => Some((Mnemonic::And, Mode::AbsoluteY, 4u8)),
        0x3D => Some((Mnemonic::And, Mode::AbsoluteX, 4u8)),
        0x3E => Some((Mnemonic::Rol, Mode::AbsoluteX, 7u8)),
        0x40 => Some((Mnemonic::Rti, Mode::Implied, 6u8)),
        0x41 => Some((Mnemonic::Eor, Mode::IndirectX, 6u8)),
        0x45 => Some((Mnemonic::Eor, Mode::ZeroPage, 3u8)),
        0x46 => Some((Mnemonic::Lsr, Mode::ZeroPage, 5u8)),
        0x48 => Some((Mnemonic::Pha, Mode::Implied, 3u8)),
        0x49 => Some((Mnemonic::Eor, Mode::Immediate, 2u8)),
        0x4A => Some((Mnemonic::Lsr, Mode::Accumulator, 2u8)),
        0x4C => Some((Mnemonic::Jmp, Mode::Absolute, 3u8)),
        0x4D => Some((Mnemonic::Eor, Mode::Absolute, 4u8)),
        0x4E => Some((Mnemonic::Lsr, Mode::Absolute, 6u8)),
        0x50 => Some((Mnemonic::Bvc, Mode::Relative, 2u8)),
        0x51 => Some((Mnemonic::Eor, Mode::IndirectY, 5u8)),
        0x55 => Some((Mnemonic::Eor, Mode::ZeroPageX, 4u8)),
        0x56 => Some((Mnemonic::Lsr, Mode::ZeroPageX, 6u8)),
        0x58 => Some((Mnemonic::Cli, Mode::Implied, 2u8)),
        0x59 => Some((Mnemonic::Eor, Mode::AbsoluteY, 4u8)),
        0x5D => Some((Mnemonic::Eor, Mode::AbsoluteX, 4u8)),
        0x5E => Some((Mnemonic::Lsr, Mode::AbsoluteX, 7u8)),
        0x60 => Some((Mnemonic::Rts, Mode::Implied, 6u8)),
        0x61 => Some((Mnemonic::Adc, Mode::IndirectX, 6u8)),
        0x65 => Some((Mnemonic::Adc, Mode::ZeroPage, 3u8)),
        0x66 => Some((Mnemonic::Ror, Mode::ZeroPage, 5u8)),
        0x68 => Some((Mnemonic::Pla, Mode::Implied, 4u8)),
        0x69 => Some((Mnemonic::Adc, Mode::Immediate, 2u8)),
        0x6A => Some((Mnemonic::Ror, Mode::Accumulator, 2u8)),
        0x6C => Some((Mnemonic::Jmp, Mode::Indirect, 5u8)),
        0x6D => Some((Mnemonic::Adc, Mode::Absolute, 4u8)),
        0x6E => Some((Mnemonic::Ror, Mode::Absolute, 6u8)),
        0x70 => Some((Mnemonic::Bvs, Mode::Relative, 2u8)),
        0x71 => Some((Mnemonic::Adc, Mode::IndirectY, 5u8)),
        0x75 => Some((Mnemonic::Adc, Mode::ZeroPageX, 4u8)),
        0x76 => Some((Mnemonic::Ror, Mode::ZeroPageX, 6u8)),
        0x78 => Some((Mnemonic::Sei, Mode::Implied, 2u8)),
        0x79 => Some((Mnemonic::Adc, Mode::AbsoluteY, 4u8)),
        0x7D => Some((Mnemonic::Adc, Mode::AbsoluteX, 4u8)),
        0x7E => Some((Mnemonic::Ror, Mode::AbsoluteX, 7u8)),
        0x81 => Some((Mnemonic::Sta, Mode::IndirectX, 6u8)),
        0x84 => Some((Mnemonic::Sty, Mode::ZeroPage, 3u8)),
        0x85 => Some((Mnemonic::Sta, Mode::ZeroPage, 3u8)),
        0x86 => Some((Mnemonic::Stx, Mode::ZeroPage, 3u8)),
        0x88 => Some((Mnemonic::Dey, Mode::Implied, 2u8)),
        0x8A => Some((Mnemonic::Txa, Mode::Implied, 2u8)),
        0x8C => Some((Mnemonic::Sty, Mode::Absolute, 4u8)),
        0x8D => Some((Mnemonic::Sta, Mode::Absolute, 4u8)),
        0x8E => Some((Mnemonic::Stx, Mode::Absolute, 4u8)),
        0x90 => Some((Mnemonic::Bcc, Mode::Relative, 2u8)),
        0x91 => Some((Mnemonic::Sta, Mode::IndirectY, 6u8)),
        0x94 => Some((Mnemonic::Sty, Mode::ZeroPageX, 4u8)),
        0x95 => Some((Mnemonic::Sta, Mode::ZeroPageX, 4u8)),
        0x96 => Some((Mnemonic::Stx, Mode::ZeroPageY, 4u8)),
        0x98 => Some((Mnemonic::Tya, Mode::Implied, 2u8)),
        0x99 => Some((Mnemonic::Sta, Mode::AbsoluteY, 5u8)),
        0x9A => Some((Mnemonic::Txs, Mode::Implied, 2u8)),
        0x9D => Some((Mnemonic::Sta, Mode::AbsoluteX, 5u8)),
        0xA0 => Some((Mnemonic::Ldy, Mode::Immediate, 2u8)),
        0xA1 => Some((Mnemonic::Lda, Mode::IndirectX, 6u8)),
        0xA2 => Some((Mnemonic::Ldx, Mode::Immediate, 2u8)),
        0xA4 => Some((Mnemonic::Ldy, Mode::ZeroPage, 3u8)),
        0xA5 => Some((Mnemonic::Lda, Mode::ZeroPage, 3u8)),
        0xA6 => Some((Mnemonic::Ldx, Mode::ZeroPage, 3u8)),
        0xA8 => Some((Mnemonic::Tay, Mode::Implied, 2u8)),
        0xA9 => Some((Mnemonic::Lda, Mode::Immediate, 2u8)),
        0xAA => Some((Mnemonic::Tax, Mode::Implied, 2u8)),
        0xAC => Some((Mnemonic::Ldy, Mode::Absolute, 4u8)),
        0xAD => Some((Mnemonic::Lda, Mode::Absolute, 4u8)),
        0xAE => Some((Mnemonic::Ldx, Mode::Absolute, 4u8)),
        0xB0 => Some((Mnemonic::Bcs, Mode::Relative, 2u8)),
        0xB1 => Some((Mnemonic::Lda, Mode::IndirectY, 5u8)),
        0xB4 => Some((Mnemonic::Ldy, Mode::ZeroPageX, 4u8)),
        0xB5 => Some((Mnemonic::Lda, Mode::ZeroPageX, 4u8)),
        0xB6 => Some((Mnemonic::Ldx, Mode::ZeroPageY, 4u8)),
        0xB8 => Some((Mnemonic::Clv, Mode::Implied, 2u8)),
        0xB9 => Some((Mnemonic::Lda, Mode::AbsoluteY, 4u8)),
        0xBA => Some((Mnemonic::Tsx, Mode::Implied, 2u8)),
        0xBC => Some((Mnemonic::Ldy, Mode::AbsoluteX, 4u8)),
        0xBD => Some((Mnemonic::Lda, Mode::AbsoluteX, 4u8)),
        0xBE => Some((Mnemonic::Ldx, Mode::AbsoluteY, 4u8)),
        0xC0 => Some((Mnemonic::Cpy, Mode::Immediate, 2u8)),
        0xC1 => Some((Mnemonic::Cmp, Mode::IndirectX, 6u8)),
        0xC4 => Some((Mnemonic::Cpy, Mode::ZeroPage, 3u8)),
        0xC5 => Some((Mnemonic::Cmp, Mode::ZeroPage, 3u8)),
        0xC6 => Some((Mnemonic::Dec, Mode::ZeroPage, 5u8)),
        0xC8 => Some((Mnemonic::Iny, Mode::Implied, 2u8)),
        0xC9 => Some((Mnemonic::Cmp, Mode::Immediate, 2u8)),
        0xCA => Some((Mnemonic::Dex, Mode::Implied, 2u8)),
        0xCC => Some((Mnemonic::Cpy, Mode::Absolute, 4u8)),
        0xCD => Some((Mnemonic::Cmp, Mode::Absolute, 4u8)),
        0xCE => Some((Mnemonic::Dec, Mode::Absolute, 6u8)),
        0xD0 => Some((Mnemonic::Bne, Mode::Relative, 2u8)),
        0xD1 => Some((Mnemonic::Cmp, Mode::IndirectY, 5u8)),
        0xD5 => Some((Mnemonic::Cmp, Mode::ZeroPageX, 4u8)),
        0xD6 => Some((Mnemonic::Dec, Mode::ZeroPageX, 6u8)),
        0xD8 => Some((Mnemonic::Cld, Mode::Implied, 2u8)),
        0xD9 => Some((Mnemonic::Cmp, Mode::AbsoluteY, 4u8)),
        0xDD => Some((Mnemonic::Cmp, Mode::AbsoluteX, 4u8)),
        0xDE => Some((Mnemonic::Dec, Mode::AbsoluteX, 7u8)),
        0xE0 => Some((Mnemonic::Cpx, Mode::Immediate, 2u8)),
        0xE1 => Some((Mnemonic::Sbc, Mode::IndirectX, 6u8)),
        0xE4 => Some((Mnemonic::Cpx, Mode::ZeroPage, 3u8)),
        0xE5 => Some((Mnemonic::Sbc, Mode::ZeroPage, 3u8)),
        0xE6 => Some((Mnemonic::Inc, Mode::ZeroPage, 5u8)),
        0xE8 => Some((Mnemonic::Inx, Mode::Implied, 2u8)),
        0xE9 => Some((Mnemonic::Sbc, Mode::Immediate, 2u8)),
        0xEA => Some((Mnemonic::Nop, Mode::Implied, 2u8)),
        0xEC => Some((Mnemonic::Cpx, Mode::Absolute, 4u8)),
        0xED => Some((Mnemonic::Sbc, Mode::Absolute, 4u8)),
        0xEE => Some((Mnemonic::Inc, Mode::Absolute, 6u8)),
        0xF0 => Some((Mnemonic::Beq, Mode::Relative, 2u8)),
        0xF1 => Some((Mnemonic::Sbc, Mode::IndirectY, 5u8)),
        0xF5 => Some((Mnemonic::Sbc, Mode::ZeroPageX, 4u8)),
        0xF6 => Some((Mnemonic::Inc, Mode::ZeroPageX, 6u8)),
        0xF8 => Some((Mnemonic::Sed, Mode::Implied, 2u8)),
        0xF9 => Some((Mnemonic::Sbc, Mode::AbsoluteY, 4u8)),
        0xFD => Some((Mnemonic::Sbc, Mode::AbsoluteX, 4u8)),
        0xFE => Some((Mnemonic::Inc, Mode::AbsoluteX, 7u8)),
        _ => None,
    }
}

/// Looks a byte up in the opcode table.
pub fn get_opcode(b: u8) -> (r: Option<Opcode>)
    ensures
        r == spec_get_opcode(b),
{
    match decode(b) {
        Some((name, mode, cycles)) => Some(Opcode { code: b, name, mode, bytes: mode.length(), cycles }),
        None => None,
    }
}

/// Every entry of the table carries its own byte as its code, is one to three
/// bytes long as its addressing mode demands, and takes two to seven cycles.
pub proof fn lemma_opcode_entry_ranges(b: u8)
    requires
        spec_get_opcode(b) is Some,
    ensures
        spec_get_opcode(b)->0.code == b,
        spec_get_opcode(b)->0.bytes == spec_mode_length(spec_get_opcode(b)->0.mode),
        1 <= spec_get_opcode(b)->0.bytes <= 3,
        2 <= spec_get_opcode(b)->0.cycles <= 7,
{
}

} // verus!
