//! The 6502 interpreter: registers and flags, operand resolution, the stack,
//! the instructions, interrupt entry, and the single step that ties them
//! together.
//!
//! Every instruction is described twice: by a spec function on the register
//! file (and the bus, where it touches memory), and by the method that
//! carries it out. Addresses and the program counter wrap at 64 KiB, the
//! stack pointer and the registers at 256.

use vstd::prelude::*;
use vstd::string::StringExecFns;
use crate::bits::{
    bit,
    add16,
    add8,
    hi_byte,
    lo_byte,
    make_word,
    spec_add16,
    spec_add8,
    spec_hi,
    spec_bit,
    spec_lo,
    spec_sub16,
    spec_sub8,
    spec_word,
    sub16,
    sub8,
    low8,
    widen,
};
use crate::memory::{MemIO, spec_read_word};
use crate::opcodes::{get_opcode, spec_get_opcode, Mnemonic, Mode, Opcode};
use crate::text::{push_bin8, push_hex2, push_hex4, spec_bin8, spec_hex2, spec_hex4};

verus! {

/// The status flags.
#[derive(Clone, Copy, Debug, PartialEq, Eq)]
pub enum Flags {
    Carry,
    Zero,
    Interrupt,
    Decimal,
    Break,
    Overflow,
    Sign,
}

impl Flags {
    /// The flag's bit in the status byte.
    pub open spec fn spec_mask(self) -> u8 {
        match self {
            Flags::Carry => 0x01,
            Flags::Zero => 0x02,
            Flags::Interrupt => 0x04,
            Flags::Decimal => 0x08,
            Flags::Break => 0x10,
            Flags::Overflow => 0x40,
            Flags::Sign => 0x80,
        }
    }

    pub fn mask(self) -> (m: u8)
        ensures
            m == self.spec_mask(),
    {
        match self {
            Flags::Carry => 0x01,
            Flags::Zero => 0x02,
            Flags::Interrupt => 0x04,
            Flags::Decimal => 0x08,
            Flags::Break => 0x10,
            Flags::Overflow => 0x40,
            Flags::Sign => 0x80,
        }
    }
}

/// What an instruction works on.
#[derive(Clone, Copy, Debug, PartialEq, Eq)]
pub enum Operand {
    /// The A register.
    Accumulator,
    /// An immediate byte or a branch displacement.
    Value(u8),
    /// A memory location.
    Address(u16),
}

/// The register file.
pub struct CpuState {
    pub pc: u16,
    pub a: u8,
    pub x: u8,
    pub y: u8,
    /// The status byte: C, Z, I, D, B, bit 5, V, S from the lowest bit up.
    pub st: u8,
    /// The stack pointer; the stack lies at $0100 + SP.
    pub sp: u8,
    /// The one-shot break request.
    pub brk: bool,
    /// The breakpoint address; $FFFF stands for none.
    pub brkpt: u16,
}

/// The overflow test of an addition: the operands agree in sign and the
/// result does not.
pub open spec fn spec_add_overflows(a: u8, m: u8, r: u8) -> bool {
    ((a ^ m) & 0x80) == 0 && ((a ^ r) & 0x80) != 0
}

/// The overflow test of a subtraction: the operands differ in sign and the
/// result differs from the accumulator.
pub open spec fn spec_sub_overflows(a: u8, m: u8, r: u8) -> bool {
    ((a ^ r) & 0x80) != 0 && ((a ^ m) & 0x80) != 0
}

/// Where a taken branch lands: the displacement is a signed byte added to
/// the program counter.
pub open spec fn spec_branch_target(pc: u16, offset: u8) -> u16 {
    if offset > 127 {
        spec_sub16(pc, (256 - offset) as u16)
    } else {
        spec_add16(pc, offset as u16)
    }
}

/// The address of the stack cell that SP points at.
pub open spec fn spec_stack_addr(sp: u8) -> u16 {
    (0x100 + sp) as u16
}

impl CpuState {
    /// The register file after reset.
    pub open spec fn initial() -> CpuState {
        CpuState { pc: 0, a: 0, x: 0, y: 0, st: 0x20, sp: 0xFF, brk: false, brkpt: 0xFFFF }
    }

    pub open spec fn flag(self, f: Flags) -> bool {
        self.st & f.spec_mask() != 0
    }

    pub open spec fn with_flag(self, f: Flags, v: bool) -> CpuState {
        CpuState {
            st: if v {
                self.st | f.spec_mask()
            } else {
                self.st & !f.spec_mask()
            },
            ..self
        }
    }

    /// Z and S set from a byte: Z where it is zero, S from its bit 7.
    pub open spec fn with_zero_sign(self, val: u8) -> CpuState {
        self.with_flag(Flags::Zero, val == 0).with_flag(Flags::Sign, val > 127)
    }

    pub open spec fn with_pc(self, pc: u16) -> CpuState {
        CpuState { pc, ..self }
    }

    pub open spec fn carry_in(self) -> int {
        if self.flag(Flags::Carry) {
            1
        } else {
            0
        }
    }

    /// The byte that an operand stands for, where it is not a memory cell.
    pub open spec fn target(self, opr: Operand) -> u16 {
        match opr {
            Operand::Accumulator => self.a as u16,
            Operand::Value(v) => v as u16,
            Operand::Address(a) => a,
        }
    }

    pub open spec fn branch(self, taken: bool, offset: u8) -> CpuState {
        if taken {
            self.with_pc(spec_branch_target(self.pc, offset))
        } else {
            self
        }
    }

    /// ADC. In binary mode A + M + C, with C the carry out of bit 7, V the
    /// signed overflow, and Z and S from the result. In decimal mode the sum
    /// is corrected to two BCD digits: Z comes from the uncorrected sum, S
    /// and V from the sum after the low digit was corrected, C from the
    /// corrected sum.
    pub open spec fn adc(self, val: u8) -> CpuState {
        let sum = self.a + val + self.carry_in();
        if self.flag(Flags::Decimal) {
            let half = if self.a % 16 + val % 16 + self.carry_in() > 9 {
                sum + 6
            } else {
                sum
            };
            let full = if half > 0x99 {
                half + 0x60
            } else {
                half
            };
            let c = self.with_flag(Flags::Zero, sum % 256 == 0).with_flag(
                Flags::Sign,
                half % 256 > 127,
            ).with_flag(
                Flags::Overflow,
                spec_add_overflows(self.a, val, (half % 256) as u8),
            ).with_flag(Flags::Carry, full > 0x99);
            CpuState { a: (full % 256) as u8, ..c }
        } else {
            let c = self.with_zero_sign((sum % 256) as u8).with_flag(
                Flags::Carry,
                sum > 0xFF,
            ).with_flag(Flags::Overflow, spec_add_overflows(self.a, val, (sum % 256) as u8));
            CpuState { a: (sum % 256) as u8, ..c }
        }
    }

    /// SBC. A - M - (1 - C): Z, S and V come from the binary difference, C
    /// is set where no borrow was needed. In decimal mode the difference is
    /// corrected to two BCD digits before C and A are taken from it.
    pub open spec fn sbc(self, val: u8) -> CpuState {
        let borrow = 1 - self.carry_in();
        let diff = self.a - val - borrow;
        let c = self.with_zero_sign((diff % 256) as u8).with_flag(
            Flags::Overflow,
            spec_sub_overflows(self.a, val, (diff % 256) as u8),
        );
        let half = if c.flag(Flags::Decimal) && self.a % 16 - borrow < val % 16 {
            diff - 6
        } else {
            diff
        };
        let full = if c.flag(Flags::Decimal) && (half < 0 || half > 0x99) {
            half - 0x60
        } else {
            half
        };
        CpuState { a: (full % 256) as u8, ..c.with_flag(Flags::Carry, full >= 0) }
    }

    /// The comparison of a register with a byte: C where the register is not
    /// below it, Z and S from the difference.
    pub open spec fn compare(self, reg: u8, val: u8) -> CpuState {
        self.with_flag(Flags::Carry, reg >= val).with_zero_sign(spec_sub8(reg, val))
    }

    pub open spec fn and(self, val: u8) -> CpuState {
        CpuState { a: self.a & val, ..self.with_zero_sign(self.a & val) }
    }

    pub open spec fn ora(self, val: u8) -> CpuState {
        CpuState { a: self.a | val, ..self.with_zero_sign(self.a | val) }
    }

    pub open spec fn eor(self, val: u8) -> CpuState {
        CpuState { a: self.a ^ val, ..self.with_zero_sign(self.a ^ val) }
    }

    /// BIT: S and V from bits 7 and 6 of the operand, Z from A AND M.
    pub open spec fn bit(self, val: u8) -> CpuState {
        self.with_flag(Flags::Sign, val > 127).with_flag(Flags::Overflow, val & 0x40 != 0).with_flag(
            Flags::Zero,
            self.a & val == 0,
        )
    }

    pub open spec fn lda(self, val: u8) -> CpuState {
        CpuState { a: val, ..self.with_zero_sign(val) }
    }

    pub open spec fn ldx(self, val: u8) -> CpuState {
        CpuState { x: val, ..self.with_zero_sign(val) }
    }

    pub open spec fn ldy(self, val: u8) -> CpuState {
        CpuState { y: val, ..self.with_zero_sign(val) }
    }

    /// The flags and the result of ASL on a byte.
    pub open spec fn asl(self, val: u8) -> (CpuState, u8) {
        (self.with_flag(Flags::Carry, val & 0x80 != 0).with_zero_sign(val << 1), val << 1)
    }

    /// The flags and the result of LSR on a byte.
    pub open spec fn lsr(self, val: u8) -> (CpuState, u8) {
        (self.with_flag(Flags::Carry, val & 0x01 != 0).with_zero_sign(val >> 1), val >> 1)
    }

    /// The flags and the result of ROL on a byte: the old carry enters at
    /// bit 0 and bit 7 leaves into the carry.
    pub open spec fn rol(self, val: u8) -> (CpuState, u8) {
        let wide = val * 2 + self.carry_in();
        (
            self.with_flag(Flags::Carry, wide > 0xFF).with_zero_sign((wide % 256) as u8),
            (wide % 256) as u8,
        )
    }

    /// The flags and the result of ROR on a byte: the old carry enters at
    /// bit 7 and bit 0 leaves into the carry.
    pub open spec fn ror(self, val: u8) -> (CpuState, u8) {
        let wide = val + 256 * self.carry_in();
        (
            self.with_flag(Flags::Carry, wide % 2 == 1).with_zero_sign((wide / 2) as u8),
            (wide / 2) as u8,
        )
    }

    pub open spec fn inx(self) -> CpuState {
        CpuState { x: spec_add8(self.x, 1), ..self.with_zero_sign(spec_add8(self.x, 1)) }
    }

    pub open spec fn iny(self) -> CpuState {
        CpuState { y: spec_add8(self.y, 1), ..self.with_zero_sign(spec_add8(self.y, 1)) }
    }

    pub open spec fn dex(self) -> CpuState {
        CpuState { x: spec_sub8(self.x, 1), ..self.with_zero_sign(spec_sub8(self.x, 1)) }
    }

    pub open spec fn dey(self) -> CpuState {
        CpuState { y: spec_sub8(self.y, 1), ..self.with_zero_sign(spec_sub8(self.y, 1)) }
    }

    pub open spec fn tax(self) -> CpuState {
        CpuState { x: self.a, ..self.with_zero_sign(self.a) }
    }

    pub open spec fn tay(self) -> CpuState {
        CpuState { y: self.a, ..self.with_zero_sign(self.a) }
    }

    pub open spec fn tsx(self) -> CpuState {
        CpuState { x: self.sp, ..self.with_zero_sign(self.sp) }
    }

    pub open spec fn txa(self) -> CpuState {
        CpuState { a: self.x, ..self.with_zero_sign(self.x) }
    }

    pub open spec fn tya(self) -> CpuState {
        CpuState { a: self.y, ..self.with_zero_sign(self.y) }
    }

    /// TXS moves X to SP and leaves the flags alone.
    pub open spec fn txs(self) -> CpuState {
        CpuState { sp: self.x, ..self }
    }

    /// The registers as the monitor shows them.
    pub open spec fn describe(self) -> Seq<char> {
        "PC:$"@ + spec_hex4(self.pc) + " A:$"@ + spec_hex2(self.a) + " X:$"@ + spec_hex2(self.x)
            + " Y:$"@ + spec_hex2(self.y) + " SP:$"@ + spec_hex2(self.sp) + " ST:"@ + spec_bin8(
            self.st,
        ) + " ["@ + spec_pp_flags(self.st) + "]"@
    }
}

/// The letter that stands for bit `7 - i` of the status byte.
pub open spec fn spec_flag_letter(i: int) -> char {
    if i == 0 {
        'S'
    } else if i == 1 {
        'V'
    } else if i == 2 {
        '-'
    } else if i == 3 {
        'B'
    } else if i == 4 {
        'D'
    } else if i == 5 {
        'I'
    } else if i == 6 {
        'Z'
    } else {
        'C'
    }
}

/// The status byte as eight characters, bit 7 first: the flag's letter where
/// the bit is set and a dot where it is clear.
pub open spec fn spec_pp_flags(flags: u8) -> Seq<char> {
    Seq::new(
        8,
        |i: int|
            if spec_bit(flags, 7 - i) {
                spec_flag_letter(i)
            } else {
                '.'
            },
    )
}

/// The text of a decode failure.
pub open spec fn spec_invalid_opcode_message(b: u8, pc: u16) -> Seq<char> {
    "Invalid opcode "@ + spec_hex2(b) + " (IP = "@ + spec_hex4(pc) + ")!"@
}

/// A byte pushed: written to the stack cell, then SP moves down.
pub open spec fn spec_push_byte<M: MemIO>(c: CpuState, m: M::V, val: u8) -> (CpuState, M::V) {
    (CpuState { sp: spec_sub8(c.sp, 1), ..c }, M::spec_write(m, spec_stack_addr(c.sp), val))
}

/// A byte popped: SP moves up, then the stack cell is read.
pub open spec fn spec_pop_byte<M: MemIO>(c: CpuState, m: M::V) -> (CpuState, u8) {
    (
        CpuState { sp: spec_add8(c.sp, 1), ..c },
        M::spec_read(m, spec_stack_addr(spec_add8(c.sp, 1))),
    )
}

/// A word pushed: the high byte first, so that it pops low byte first.
pub open spec fn spec_push_word<M: MemIO>(c: CpuState, m: M::V, w: u16) -> (CpuState, M::V) {
    let (c1, m1) = spec_push_byte::<M>(c, m, spec_hi(w));
    spec_push_byte::<M>(c1, m1, spec_lo(w))
}

/// A word popped: the low byte, then the high byte.
pub open spec fn spec_pop_word<M: MemIO>(c: CpuState, m: M::V) -> (CpuState, u16) {
    let (c1, lo) = spec_pop_byte::<M>(c, m);
    let (c2, hi) = spec_pop_byte::<M>(c1, m);
    (c2, spec_word(lo, hi))
}

/// The operand that an addressing mode yields, with PC at the opcode byte.
/// Zero-page indexing wraps within the zero page; absolute and indirect
/// indexing add in sixteen bits.
pub open spec fn spec_fetch_operand<M: MemIO>(c: CpuState, m: M::V, mode: Mode) -> Operand {
    let next = spec_add16(c.pc, 1);
    let byte = M::spec_read(m, next);
    let word = spec_read_word::<M>(m, next);
    match mode {
        Mode::Immediate => Operand::Value(byte),
        Mode::Absolute => Operand::Address(word),
        Mode::AbsoluteX => Operand::Address(spec_add16(c.x as u16, word)),
        Mode::AbsoluteY => Operand::Address(spec_add16(c.y as u16, word)),
        Mode::ZeroPage => Operand::Address(byte as u16),
        Mode::ZeroPageX => Operand::Address(spec_add8(c.x, byte) as u16),
        Mode::ZeroPageY => Operand::Address(spec_add8(c.y, byte) as u16),
        Mode::Indirect => Operand::Address(spec_read_word::<M>(m, word)),
        Mode::IndirectX => Operand::Address(spec_read_word::<M>(m, spec_add8(c.x, byte) as u16)),
        Mode::IndirectY => Operand::Address(
            spec_add16(c.y as u16, spec_read_word::<M>(m, byte as u16)),
        ),
        Mode::Relative => Operand::Value(byte),
        Mode::Accumulator => Operand::Accumulator,
        Mode::Implied => Operand::Value(0),
    }
}

/// The byte that an operand stands for: A, the value, or the memory cell.
pub open spec fn spec_operand_source<M: MemIO>(c: CpuState, m: M::V, opr: Operand) -> u8 {
    match opr {
        Operand::Accumulator => c.a,
        Operand::Value(v) => v,
        Operand::Address(a) => M::spec_read(m, a),
    }
}

/// A result stored back where the operand came from: in A, or in memory at
/// the operand's target.
pub open spec fn spec_store_back<M: MemIO>(c: CpuState, m: M::V, opr: Operand, val: u8) -> (
    CpuState,
    M::V,
) {
    match opr {
        Operand::Accumulator => (CpuState { a: val, ..c }, m),
        _ => (c, M::spec_write(m, c.target(opr), val)),
    }
}

pub open spec fn spec_asl<M: MemIO>(c: CpuState, m: M::V, opr: Operand) -> (CpuState, M::V) {
    let (c1, r) = c.asl(spec_operand_source::<M>(c, m, opr));
    spec_store_back::<M>(c1, m, opr, r)
}

pub open spec fn spec_lsr<M: MemIO>(c: CpuState, m: M::V, opr: Operand) -> (CpuState, M::V) {
    let (c1, r) = c.lsr(spec_operand_source::<M>(c, m, opr));
    spec_store_back::<M>(c1, m, opr, r)
}

pub open spec fn spec_rol<M: MemIO>(c: CpuState, m: M::V, opr: Operand) -> (CpuState, M::V) {
    let (c1, r) = c.rol(spec_operand_source::<M>(c, m, opr));
    spec_store_back::<M>(c1, m, opr, r)
}

pub open spec fn spec_ror<M: MemIO>(c: CpuState, m: M::V, opr: Operand) -> (CpuState, M::V) {
    let (c1, r) = c.ror(spec_operand_source::<M>(c, m, opr));
    spec_store_back::<M>(c1, m, opr, r)
}

/// INC: the memory cell plus one, with Z and S from the result.
pub open spec fn spec_inc<M: MemIO>(c: CpuState, m: M::V, addr: u16) -> (CpuState, M::V) {
    let val = spec_add8(M::spec_read(m, addr), 1);
    (c.with_zero_sign(val), M::spec_write(m, addr, val))
}

/// DEC: the memory cell minus one, with Z and S from the result.
pub open spec fn spec_dec<M: MemIO>(c: CpuState, m: M::V, addr: u16) -> (CpuState, M::V) {
    let val = spec_sub8(M::spec_read(m, addr), 1);
    (c.with_zero_sign(val), M::spec_write(m, addr, val))
}

/// PHA pushes A.
pub open spec fn spec_pha<M: MemIO>(c: CpuState, m: M::V) -> (CpuState, M::V) {
    spec_push_byte::<M>(c, m, c.a)
}

/// PHP pushes the status byte with B and bit 5 forced on.
pub open spec fn spec_php<M: MemIO>(c: CpuState, m: M::V) -> (CpuState, M::V) {
    spec_push_byte::<M>(c, m, c.st | 0x30)
}

/// PLA pops into A and sets Z and S from it.
pub open spec fn spec_pla<M: MemIO>(c: CpuState, m: M::V) -> CpuState {
    let (c1, val) = spec_pop_byte::<M>(c, m);
    CpuState { a: val, ..c1.with_zero_sign(val) }
}

/// PLP pops the status byte and forces bit 5 on.
pub open spec fn spec_plp<M: MemIO>(c: CpuState, m: M::V) -> CpuState {
    let (c1, val) = spec_pop_byte::<M>(c, m);
    CpuState { st: val | 0x20, ..c1 }
}

/// JSR pushes the address of its own last byte and jumps.
pub open spec fn spec_jsr<M: MemIO>(c: CpuState, m: M::V, addr: u16) -> (CpuState, M::V) {
    let (c1, m1) = spec_push_word::<M>(c, m, spec_sub16(c.pc, 1));
    (c1.with_pc(addr), m1)
}

/// RTS pops an address and continues one past it.
pub open spec fn spec_rts<M: MemIO>(c: CpuState, m: M::V) -> CpuState {
    let (c1, w) = spec_pop_word::<M>(c, m);
    c1.with_pc(spec_add16(w, 1))
}

/// RTI pops the status byte, with bit 5 forced on, and then the program counter.
pub open spec fn spec_rti<M: MemIO>(c: CpuState, m: M::V) -> CpuState {
    let (c1, st) = spec_pop_byte::<M>(c, m);
    let (c2, w) = spec_pop_word::<M>(CpuState { st: st | 0x20, ..c1 }, m);
    c2.with_pc(w)
}

/// Interrupt entry: the return address and the status byte go to the stack,
/// I is set, and execution continues at the vector in $FFFE/$FFFF.
pub open spec fn spec_enter_interrupt<M: MemIO>(c: CpuState, m: M::V) -> (CpuState, M::V) {
    let (c1, m1) = spec_push_word::<M>(c, m, c.pc);
    let (c2, m2) = spec_push_byte::<M>(c1, m1, c1.st);
    (c2.with_flag(Flags::Interrupt, true).with_pc(spec_read_word::<M>(m2, 0xFFFE)), m2)
}

/// BRK: PC steps over the padding byte, B is set, and the interrupt is
/// entered; the pushed status shows B.
pub open spec fn spec_brk<M: MemIO>(c: CpuState, m: M::V) -> (CpuState, M::V) {
    spec_enter_interrupt::<M>(c.with_pc(spec_add16(c.pc, 1)).with_flag(Flags::Break, true), m)
}

/// A maskable interrupt: ignored while I is set; otherwise B is cleared and
/// the interrupt is entered; the pushed status shows B clear.
pub open spec fn spec_irq<M: MemIO>(c: CpuState, m: M::V) -> (CpuState, M::V) {
    if c.flag(Flags::Interrupt) {
        (c, m)
    } else {
        spec_enter_interrupt::<M>(c.with_flag(Flags::Break, false), m)
    }
}

/// What an instruction does, with PC already past it. `opr` is the operand
/// that was fetched, `val` the byte and `addr` the word it stands for.
pub open spec fn spec_execute<M: MemIO>(
    name: Mnemonic,
    c: CpuState,
    m: M::V,
    opr: Operand,
    val: u8,
    addr: u16,
) -> (CpuState, M::V) {
    match name {
        Mnemonic::Adc => (c.adc(val), m),
        Mnemonic::And => (c.and(val), m),
        Mnemonic::Asl => spec_asl::<M>(c, m, opr),
        Mnemonic::Bcc => (c.branch(!c.flag(Flags::Carry), val), m),
        Mnemonic::Bcs => (c.branch(c.flag(Flags::Carry), val), m),
        Mnemonic::Beq => (c.branch(c.flag(Flags::Zero), val), m),
        Mnemonic::Bit => (c.bit(val), m),
        Mnemonic::Bmi => (c.branch(c.flag(Flags::Sign), val), m),
        Mnemonic::Bne => (c.branch(!c.flag(Flags::Zero), val), m),
        Mnemonic::Bpl => (c.branch(!c.flag(Flags::Sign), val), m),
        Mnemonic::Brk => spec_brk::<M>(c, m),
        Mnemonic::Bvc => (c.branch(!c.flag(Flags::Overflow), val), m),
        Mnemonic::Bvs => (c.branch(c.flag(Flags::Overflow), val), m),
        Mnemonic::Clc => (c.with_flag(Flags::Carry, false), m),
        Mnemonic::Cld => (c.with_flag(Flags::Decimal, false), m),
        Mnemonic::Cli => (c.with_flag(Flags::Interrupt, false), m),
        Mnemonic::Clv => (c.with_flag(Flags::Overflow, false), m),
        Mnemonic::Cmp => (c.compare(c.a, val), m),
        Mnemonic::Cpx => (c.compare(c.x, val), m),
        Mnemonic::Cpy => (c.compare(c.y, val), m),
        Mnemonic::Dec => spec_dec::<M>(c, m, addr),
        Mnemonic::Dex => (c.dex(), m),
        Mnemonic::Dey => (c.dey(), m),
        Mnemonic::Eor => (c.eor(val), m),
        Mnemonic::Inc => spec_inc::<M>(c, m, addr),
        Mnemonic::Inx => (c.inx(), m),
        Mnemonic::Iny => (c.iny(), m),
        Mnemonic::Jmp => (c.with_pc(addr), m),
        Mnemonic::Jsr => spec_jsr::<M>(c, m, addr),
        Mnemonic::Lda => (c.lda(val), m),
        Mnemonic::Ldx => (c.ldx(val), m),
        Mnemonic::Ldy => (c.ldy(val), m),
        Mnemonic::Lsr => spec_lsr::<M>(c, m, opr),
        Mnemonic::Nop => (c, m),
        Mnemonic::Ora => (c.ora(val), m),
        Mnemonic::Pha => spec_pha::<M>(c, m),
        Mnemonic::Php => spec_php::<M>(c, m),
        Mnemonic::Pla => (spec_pla::<M>(c, m), m),
        Mnemonic::Plp => (spec_plp::<M>(c, m), m),
        Mnemonic::Rol => spec_rol::<M>(c, m, opr),
        Mnemonic::Ror => spec_ror::<M>(c, m, opr),
        Mnemonic::Rti => (spec_rti::<M>(c, m), m),
        Mnemonic::Rts => (spec_rts::<M>(c, m), m),
        Mnemonic::Sbc => (c.sbc(val), m),
        Mnemonic::Sec => (c.with_flag(Flags::Carry, true), m),
        Mnemonic::Sed => (c.with_flag(Flags::Decimal, true), m),
        Mnemonic::Sei => (c.with_flag(Flags::Interrupt, true), m),
        Mnemonic::Sta => (c, M::spec_write(m, addr, c.a)),
        Mnemonic::Stx => (c, M::spec_write(m, addr, c.x)),
        Mnemonic::Sty => (c, M::spec_write(m, addr, c.y)),
        Mnemonic::Tax => (c.tax(), m),
        Mnemonic::Tay => (c.tay(), m),
        Mnemonic::Tsx => (c.tsx(), m),
        Mnemonic::Txa => (c.txa(), m),
        Mnemonic::Tya => (c.tya(), m),
        Mnemonic::Txs => (c.txs(), m),
    }
}

/// The registers and the bus after the instruction at PC has run, before the
/// break request is looked at: the operand is fetched, PC advances by the
/// instruction's length, and the instruction executes.
pub open spec fn spec_run<M: MemIO>(op: Opcode, c: CpuState, m: M::V) -> (CpuState, M::V) {
    let opr = spec_fetch_operand::<M>(c, m, op.mode);
    let val = spec_operand_source::<M>(c, m, opr);
    let addr = c.target(opr);
    spec_execute::<M>(op.name, c.with_pc(spec_add16(c.pc, op.bytes as u16)), m, opr, val, addr)
}

/// Whether a step ends in a break: a break was requested, or PC has reached
/// the breakpoint.
pub open spec fn spec_hit_break(c: CpuState) -> bool {
    c.brk || c.brkpt == c.pc
}


/// Whether an instruction writes the program counter itself.
pub open spec fn spec_transfers_control(name: Mnemonic) -> bool {
    match name {
        Mnemonic::Bcc
        | Mnemonic::Bcs
        | Mnemonic::Beq
        | Mnemonic::Bmi
        | Mnemonic::Bne
        | Mnemonic::Bpl
        | Mnemonic::Bvc
        | Mnemonic::Bvs
        | Mnemonic::Brk
        | Mnemonic::Jmp
        | Mnemonic::Jsr
        | Mnemonic::Rti
        | Mnemonic::Rts => true,
        _ => false,
    }
}

/// Reading a flag after writing one: the written value for the same flag,
/// and the old value for every other flag.
pub proof fn lemma_with_flag_reads(c: CpuState, f: Flags, v: bool, g: Flags)
    ensures
        c.with_flag(f, v).flag(g) == (if f == g {
            v
        } else {
            c.flag(g)
        }),
{
    let st = c.st;
    let a = f.spec_mask();
    let b = g.spec_mask();
    if f == g {
        assert((st | a) & a != 0 && (st & !a) & a == 0) by (bit_vector)
            requires
                a != 0,
        ;
    } else {
        assert(a & b == 0) by (bit_vector)
            requires
                a == 0x01 || a == 0x02 || a == 0x04 || a == 0x08 || a == 0x10 || a == 0x40 || a
                    == 0x80,
                b == 0x01 || b == 0x02 || b == 0x04 || b == 0x08 || b == 0x10 || b == 0x40 || b
                    == 0x80,
                a != b,
        ;
        assert((st | a) & b == st & b && (st & !a) & b == st & b) by (bit_vector)
            requires
                a & b == 0,
        ;
    }
}

/// The same, of every register file and every pair of flags at once.
pub proof fn lemma_flags_are_independent()
    ensures
        forall|c: CpuState, f: Flags, v: bool, g: Flags|
            #[trigger] c.with_flag(f, v).flag(g) == (if f == g {
                v
            } else {
                c.flag(g)
            }),
{
    assert forall|c: CpuState, f: Flags, v: bool, g: Flags|
        #[trigger] c.with_flag(f, v).flag(g) == (if f == g {
            v
        } else {
            c.flag(g)
        }) by {
        lemma_with_flag_reads(c, f, v, g);
    }
}

/// Writing a flag leaves bit 5 of the status byte as it was.
pub proof fn lemma_with_flag_keeps_bit5(c: CpuState, f: Flags, v: bool)
    ensures
        c.with_flag(f, v).st & 0x20 == c.st & 0x20,
{
    let st = c.st;
    let a = f.spec_mask();
    assert((st | a) & 0x20 == st & 0x20 && (st & !a) & 0x20 == st & 0x20) by (bit_vector)
        requires
            a == 0x01 || a == 0x02 || a == 0x04 || a == 0x08 || a == 0x10 || a == 0x40 || a
                == 0x80,
    ;
}

/// The zero-page modes address the zero page: with or without an index,
/// the operand is a memory location in $00-$FF.
pub proof fn lemma_zero_page_operand<M: MemIO>(c: CpuState, m: M::V, mode: Mode)
    requires
        mode == Mode::ZeroPage || mode == Mode::ZeroPageX || mode == Mode::ZeroPageY,
    ensures
        spec_fetch_operand::<M>(c, m, mode) is Address,
        spec_fetch_operand::<M>(c, m, mode)->Address_0 <= 0xFF,
{
}

/// A step of a documented opcode takes the two to seven cycles that the
/// table declares and runs the instruction with PC moved on by the one to
/// three bytes that the table declares; where the instruction does not write
/// PC itself, that is where PC ends.
pub proof fn lemma_step_length_and_cycles<M: MemIO>(c: CpuState, m: M::V)
    requires
        spec_get_opcode(M::spec_read(m, c.pc)) is Some,
    ensures
        ({
            let op = spec_get_opcode(M::spec_read(m, c.pc))->0;
            &&& 2 <= op.cycles <= 7
            &&& 1 <= op.bytes <= 3
            &&& !spec_transfers_control(op.name) ==> spec_run::<M>(op, c, m).0.pc == spec_add16(
                c.pc,
                op.bytes as u16,
            )
        }),
{
    crate::opcodes::lemma_opcode_entry_ranges(M::spec_read(m, c.pc));
}

/// Whether bit 5 of the status byte is set.
pub open spec fn spec_bit5(c: CpuState) -> bool {
    c.st & 0x20 == 0x20
}

proof fn lemma_flags_keep_bit5(c: CpuState)
    requires
        spec_bit5(c),
    ensures
        forall|f: Flags, v: bool| spec_bit5(#[trigger] c.with_flag(f, v)),
        forall|val: u8| spec_bit5(#[trigger] c.with_zero_sign(val)),
{
    assert forall|f: Flags, v: bool| spec_bit5(#[trigger] c.with_flag(f, v)) by {
        lemma_with_flag_keeps_bit5(c, f, v);
    }
    assert forall|val: u8| spec_bit5(#[trigger] c.with_zero_sign(val)) by {
        lemma_with_flag_keeps_bit5(c, Flags::Zero, val == 0);
        lemma_with_flag_keeps_bit5(c.with_flag(Flags::Zero, val == 0), Flags::Sign, val > 127);
    }
}

proof fn lemma_arithmetic_keeps_bit5(c: CpuState, val: u8)
    requires
        spec_bit5(c),
    ensures
        spec_bit5(c.adc(val)),
        spec_bit5(c.sbc(val)),
        spec_bit5(c.bit(val)),
        forall|reg: u8| spec_bit5(#[trigger] c.compare(reg, val)),
        spec_bit5(c.asl(val).0),
        spec_bit5(c.lsr(val).0),
        spec_bit5(c.rol(val).0),
        spec_bit5(c.ror(val).0),
{
    lemma_flags_keep_bit5(c);
    let sum = c.a + val + c.carry_in();
    // ADC, binary
    let b1 = c.with_zero_sign((sum % 256) as u8);
    lemma_flags_keep_bit5(b1);
    let b2 = b1.with_flag(Flags::Carry, sum > 0xFF);
    lemma_flags_keep_bit5(b2);
    // ADC, decimal
    let half = if c.a % 16 + val % 16 + c.carry_in() > 9 {
        sum + 6
    } else {
        sum
    };
    let d1 = c.with_flag(Flags::Zero, sum % 256 == 0);
    lemma_flags_keep_bit5(d1);
    let d2 = d1.with_flag(Flags::Sign, half % 256 > 127);
    lemma_flags_keep_bit5(d2);
    let d3 = d2.with_flag(Flags::Overflow, spec_add_overflows(c.a, val, (half % 256) as u8));
    lemma_flags_keep_bit5(d3);
    assert(spec_bit5(c.adc(val)));
    // SBC
    let diff = c.a - val - (1 - c.carry_in());
    let s1 = c.with_zero_sign((diff % 256) as u8);
    lemma_flags_keep_bit5(s1);
    let s2 = s1.with_flag(Flags::Overflow, spec_sub_overflows(c.a, val, (diff % 256) as u8));
    lemma_flags_keep_bit5(s2);
    assert(spec_bit5(c.sbc(val)));
    // BIT
    let t1 = c.with_flag(Flags::Sign, val > 127);
    lemma_flags_keep_bit5(t1);
    let t2 = t1.with_flag(Flags::Overflow, val & 0x40 != 0);
    lemma_flags_keep_bit5(t2);
    assert(spec_bit5(c.bit(val)));
    // comparisons
    assert forall|reg: u8| spec_bit5(#[trigger] c.compare(reg, val)) by {
        lemma_flags_keep_bit5(c.with_flag(Flags::Carry, reg >= val));
    }
    // shifts and rotates
    lemma_flags_keep_bit5(c.with_flag(Flags::Carry, val & 0x80 != 0));
    lemma_flags_keep_bit5(c.with_flag(Flags::Carry, val & 0x01 != 0));
    lemma_flags_keep_bit5(c.with_flag(Flags::Carry, val * 2 + c.carry_in() > 0xFF));
    lemma_flags_keep_bit5(c.with_flag(Flags::Carry, (val + 256 * c.carry_in()) % 2 == 1));
}

proof fn lemma_interrupts_keep_bit5<M: MemIO>(c: CpuState, m: M::V)
    requires
        spec_bit5(c),
    ensures
        spec_bit5(spec_brk::<M>(c, m).0),
        spec_bit5(spec_irq::<M>(c, m).0),
{
    lemma_flags_keep_bit5(c);
    lemma_flags_keep_bit5(c.with_pc(spec_add16(c.pc, 1)));
    let b = c.with_pc(spec_add16(c.pc, 1)).with_flag(Flags::Break, true);
    let (b1, bm) = spec_push_word::<M>(b, m, b.pc);
    let (b2, _bm) = spec_push_byte::<M>(b1, bm, b1.st);
    lemma_flags_keep_bit5(b2);
    let i = c.with_flag(Flags::Break, false);
    let (i1, im) = spec_push_word::<M>(i, m, i.pc);
    let (i2, _im) = spec_push_byte::<M>(i1, im, i1.st);
    lemma_flags_keep_bit5(i2);
}

/// Bit 5 of the status byte, once set, stays set: through every instruction
/// and through interrupt entry.
#[verifier::rlimit(60)]
#[verifier::spinoff_prover]
pub proof fn lemma_bit5_stays_set<M: MemIO>(op: Opcode, c: CpuState, m: M::V)
    requires
        spec_bit5(c),
    ensures
        spec_bit5(spec_run::<M>(op, c, m).0),
        spec_bit5(spec_irq::<M>(c, m).0),
{
    let opr = spec_fetch_operand::<M>(c, m, op.mode);
    let val = spec_operand_source::<M>(c, m, opr);
    let c0 = c.with_pc(spec_add16(c.pc, op.bytes as u16));
    assert(spec_bit5(c0));
    lemma_flags_keep_bit5(c0);
    lemma_arithmetic_keeps_bit5(c0, val);
    lemma_arithmetic_keeps_bit5(c0, spec_operand_source::<M>(c0, m, opr));
    lemma_interrupts_keep_bit5::<M>(c0, m);
    lemma_interrupts_keep_bit5::<M>(c, m);
    assert(forall|v: u8| #[trigger] (v | 0x20) & 0x20 == 0x20) by (bit_vector);
    let popped = spec_pop_byte::<M>(c0, m);
    lemma_flags_keep_bit5(popped.0);
}

/// The carry that an addition leaves: set exactly where A + M + C does not
/// fit in a byte (binary mode).
pub open spec fn spec_carry_out(c: CpuState, val: u8) -> bool {
    c.a + val + c.carry_in() > 0xFF
}

/// In binary mode, adding a byte and then subtracting it again, with the
/// carry of the addition handed to the subtraction, leaves in A the old A
/// plus the two carries minus one, modulo 256.
pub proof fn lemma_adc_then_sbc(c: CpuState, val: u8)
    requires
        !c.flag(Flags::Decimal),
    ensures
        c.adc(val).sbc(val).a as int == (c.a + c.carry_in() + (if spec_carry_out(c, val) {
            1int
        } else {
            0int
        }) - 1) % 256,
{
    lemma_flags_are_independent();
    let sum = c.a + val + c.carry_in();
    let after = c.adc(val);
    let flags = c.with_zero_sign((sum % 256) as u8).with_flag(Flags::Carry, sum > 0xFF).with_flag(
        Flags::Overflow,
        spec_add_overflows(c.a, val, (sum % 256) as u8),
    );
    assert(after.st == flags.st);
    assert(flags.flag(Flags::Carry) == spec_carry_out(c, val));
    assert(!flags.flag(Flags::Decimal));
    let diff = after.a - val - (1 - after.carry_in());
    assert(!after.with_zero_sign((diff % 256) as u8).with_flag(
        Flags::Overflow,
        spec_sub_overflows(after.a, val, (diff % 256) as u8),
    ).flag(Flags::Decimal));
}

/// Where the carry into the addition and the carry out of it differ, adding
/// a byte and subtracting it again restores A (binary mode).
pub proof fn lemma_adc_sbc_round_trip(c: CpuState, val: u8)
    requires
        !c.flag(Flags::Decimal),
        c.flag(Flags::Carry) != spec_carry_out(c, val),
    ensures
        c.adc(val).sbc(val).a == c.a,
{
    lemma_adc_then_sbc(c, val);
}

/// The 6502: its registers, and the one optional breakpoint.
pub struct CPU {
    pc: u16,
    a: u8,
    x: u8,
    y: u8,
    st: u8,
    sp: u8,
    brk: bool,
    brkpt: u16,
}

impl View for CPU {
    type V = CpuState;

    closed spec fn view(&self) -> CpuState {
        CpuState {
            pc: self.pc,
            a: self.a,
            x: self.x,
            y: self.y,
            st: self.st,
            sp: self.sp,
            brk: self.brk,
            brkpt: self.brkpt,
        }
    }
}

/// The text of a decode failure for byte `b` found at `pc`.
pub fn invalid_opcode_message(b: u8, pc: u16) -> (msg: String)
    ensures
        msg@ == spec_invalid_opcode_message(b, pc),
{
    let mut msg = String::new();
    msg.append("Invalid opcode ");
    push_hex2(&mut msg, b);
    msg.append(" (IP = ");
    push_hex4(&mut msg, pc);
    msg.append(")!");
    assert(msg@ =~= spec_invalid_opcode_message(b, pc));
    msg
}

fn add_overflows(a: u8, m: u8, r: u8) -> (v: bool)
    ensures
        v == spec_add_overflows(a, m, r),
{
    ((a ^ m) & 0x80) == 0 && ((a ^ r) & 0x80) != 0
}

fn sub_overflows(a: u8, m: u8, r: u8) -> (v: bool)
    ensures
        v == spec_sub_overflows(a, m, r),
{
    ((a ^ r) & 0x80) != 0 && ((a ^ m) & 0x80) != 0
}

impl CPU {
    /// The CPU after reset: PC, A, X and Y zero, SP at $FF, only bit 5 of the
    /// status byte set, no break requested and no breakpoint.
    pub fn new() -> (cpu: CPU)
        ensures
            cpu@ == CpuState::initial(),
    {
        CPU { pc: 0, a: 0, x: 0, y: 0, st: 0x20, sp: 0xFF, brk: false, brkpt: 0xFFFF }
    }

    pub fn get_pc(&mut self) -> (pc: u16)
        ensures
            pc == old(self)@.pc,
            final(self)@ == old(self)@,
    {
        self.pc
    }

    pub fn set_pc(&mut self, pc: u16)
        ensures
            final(self)@ == old(self)@.with_pc(pc),
    {
        self.pc = pc;
    }

    pub fn get_a(&self) -> (a: u8)
        ensures
            a == self@.a,
    {
        self.a
    }

    pub fn get_x(&self) -> (x: u8)
        ensures
            x == self@.x,
    {
        self.x
    }

    pub fn get_y(&self) -> (y: u8)
        ensures
            y == self@.y,
    {
        self.y
    }

    pub fn get_sp(&self) -> (sp: u8)
        ensures
            sp == self@.sp,
    {
        self.sp
    }

    pub fn get_status(&self) -> (st: u8)
        ensures
            st == self@.st,
    {
        self.st
    }

    pub fn get_flag(&self, f: Flags) -> (v: bool)
        ensures
            v == self@.flag(f),
    {
        (self.st & f.mask()) != 0
    }

    pub fn set_flag(&mut self, f: Flags, v: bool)
        ensures
            final(self)@ == old(self)@.with_flag(f, v),
    {
        if v {
            self.st = self.st | f.mask();
        } else {
            self.st = self.st & !f.mask();
        }
    }

    /// Sets the breakpoint; $FFFF removes it.
    pub fn set_breakpoint(&mut self, addr: u16)
        ensures
            final(self)@ == (CpuState { brkpt: addr, ..old(self)@ }),
    {
        self.brkpt = addr;
    }

    /// Raises a maskable interrupt.
    pub fn trigger_irq<M: MemIO>(&mut self, mem: &mut M)
        ensures
            (final(self)@, final(mem)@) == spec_irq::<M>(old(self)@, old(mem)@),
    {
        self.do_irq(mem)
    }

    /// Runs the instruction at PC. A byte that is no documented opcode fails
    /// with a message and changes nothing. Otherwise `cycles` takes the
    /// instruction's cycle count and the result says whether the step ended
    /// in a break; the break request is cleared.
    pub fn single_step<M: MemIO>(&mut self, mem: &mut M, cycles: &mut u8) -> (r: Result<
        bool,
        String,
    >)
        ensures
            match spec_get_opcode(M::spec_read(old(mem)@, old(self)@.pc)) {
                Some(op) => {
                    let (c, m) = spec_run::<M>(op, old(self)@, old(mem)@);
                    &&& r == Ok::<bool, String>(spec_hit_break(c))
                    &&& final(self)@ == (CpuState { brk: false, ..c })
                    &&& final(mem)@ == m
                    &&& *final(cycles) == op.cycles
                    &&& 2 <= *final(cycles) <= 7
                },
                None => {
                    &&& r is Err
                    &&& r->Err_0@ == spec_invalid_opcode_message(
                        M::spec_read(old(mem)@, old(self)@.pc),
                        old(self)@.pc,
                    )
                    &&& final(self)@ == old(self)@
                    &&& final(mem)@ == old(mem)@
                    &&& *final(cycles) == *old(cycles)
                },
            },
    {
        let b = mem.read_byte(self.pc);
        let opcode = match get_opcode(b) {
            Some(op) => op,
            None => {
                return Err(invalid_opcode_message(b, self.pc));
            },
        };
        proof {
            crate::opcodes::lemma_opcode_entry_ranges(b);
        }
        let opr: Operand = self.fetch_operand(mem, &opcode);
        let val: u8 = self.operand_source(mem, &opr);
        let addr: u16 = self.operand_target(&opr);

        self.pc = add16(self.pc, widen(opcode.bytes));
        *cycles = opcode.cycles;

        match opcode.name {
            Mnemonic::Adc => self.do_adc(val),
            Mnemonic::And => self.do_and(val),
            Mnemonic::Asl => self.do_asl(mem, opr),
            Mnemonic::Bcc => self.do_bcc(val),
            Mnemonic::Bcs => self.do_bcs(val),
            Mnemonic::Beq => self.do_beq(val),
            Mnemonic::Bit => self.do_bit(val),
            Mnemonic::Brk => self.do_brk(mem),
            Mnemonic::Bmi => self.do_bmi(val),
            Mnemonic::Bne => self.do_bne(val),
            Mnemonic::Bpl => self.do_bpl(val),
            Mnemonic::Bvc => self.do_bvc(val),
            Mnemonic::Bvs => self.do_bvs(val),
            Mnemonic::Clc => self.do_clc(),
            Mnemonic::Cld => self.do_cld(),
            Mnemonic::Cli => self.do_cli(),
            Mnemonic::Clv => self.do_clv(),
            Mnemonic::Cmp => self.do_cmp(val),
            Mnemonic::Cpx => self.do_cpx(val),
            Mnemonic::Cpy => self.do_cpy(val),
            Mnemonic::Dec => self.do_dec(mem, addr),
            Mnemonic::Dex => self.do_dex(),
            Mnemonic::Dey => self.do_dey(),
            Mnemonic::Eor => self.do_eor(val),
            Mnemonic::Inc => self.do_inc(mem, addr),
            Mnemonic::Inx => self.do_inx(),
            Mnemonic::Iny => self.do_iny(),
            Mnemonic::Jmp => self.do_jmp(addr),
            Mnemonic::Jsr => self.do_jsr(mem, addr),
            Mnemonic::Lda => self.do_lda(val),
            Mnemonic::Ldx => self.do_ldx(val),
            Mnemonic::Ldy => self.do_ldy(val),
            Mnemonic::Lsr => self.do_lsr(mem, opr),
            Mnemonic::Nop => self.do_nop(),
            Mnemonic::Ora => self.do_ora(val),
            Mnemonic::Pha => self.do_pha(mem),
            Mnemonic::Php => self.do_php(mem),
            Mnemonic::Pla => self.do_pla(mem),
            Mnemonic::Plp => self.do_plp(mem),
            Mnemonic::Rol => self.do_rol(mem, opr),
            Mnemonic::Ror => self.do_ror(mem, opr),
            Mnemonic::Rti => self.do_rti(mem),
            Mnemonic::Rts => self.do_rts(mem),
            Mnemonic::Sbc => self.do_sbc(val),
            Mnemonic::Sec => self.do_sec(),
            Mnemonic::Sed => self.do_sed(),
            Mnemonic::Sei => self.do_sei(),
            Mnemonic::Sta => self.do_sta(mem, addr),
            Mnemonic::Stx => self.do_stx(mem, addr),
            Mnemonic::Sty => self.do_sty(mem, addr),
            Mnemonic::Tax => self.do_tax(),
            Mnemonic::Tay => self.do_tay(),
            Mnemonic::Tsx => self.do_tsx(),
            Mnemonic::Txa => self.do_txa(),
            Mnemonic::Tya => self.do_tya(),
            Mnemonic::Txs => self.do_txs(),
        };

        let dobreak = self.brk;
        self.brk = false;

        Ok(dobreak || (self.brkpt == self.pc))
    }

    pub fn fetch_operand<M: MemIO>(&self, mem: &M, opcode: &Opcode) -> (opr: Operand)
        ensures
            opr == spec_fetch_operand::<M>(self@, mem@, opcode.mode),
    {
        match opcode.mode {
            Mode::Immediate => self.opr_immediate(mem),
            Mode::Absolute => self.opr_absolute(mem),
            Mode::AbsoluteX => self.opr_absolute_x(mem),
            Mode::AbsoluteY => self.opr_absolute_y(mem),
            Mode::ZeroPage => self.opr_zeropage(mem),
            Mode::ZeroPageX => self.opr_zeropage_x(mem),
            Mode::ZeroPageY => self.opr_zeropage_y(mem),
            Mode::Indirect => self.opr_indirect(mem),
            Mode::IndirectX => self.opr_indirect_x(mem),
            Mode::IndirectY => self.opr_indirect_y(mem),
            Mode::Relative => self.opr_relative(mem),
            Mode::Accumulator => self.opr_accumulator(),
            Mode::Implied => Operand::Value(0),
        }
    }

    fn opr_accumulator(&self) -> (opr: Operand)
        ensures
            opr == Operand::Accumulator,
    {
        Operand::Accumulator
    }

    fn opr_immediate<M: MemIO>(&self, mem: &M) -> (opr: Operand)
        ensures
            opr == spec_fetch_operand::<M>(self@, mem@, Mode::Immediate),
    {
        Operand::Value(mem.read_byte(add16(self.pc, 1)))
    }

    fn opr_absolute<M: MemIO>(&self, mem: &M) -> (opr: Operand)
        ensures
            opr == spec_fetch_operand::<M>(self@, mem@, Mode::Absolute),
    {
        Operand::Address(mem.read_word(add16(self.pc, 1)))
    }

    fn opr_absolute_x<M: MemIO>(&self, mem: &M) -> (opr: Operand)
        ensures
            opr == spec_fetch_operand::<M>(self@, mem@, Mode::AbsoluteX),
    {
        Operand::Address(add16(self.x as u16, mem.read_word(add16(self.pc, 1))))
    }

    fn opr_absolute_y<M: MemIO>(&self, mem: &M) -> (opr: Operand)
        ensures
            opr == spec_fetch_operand::<M>(self@, mem@, Mode::AbsoluteY),
    {
        Operand::Address(add16(self.y as u16, mem.read_word(add16(self.pc, 1))))
    }

    fn opr_zeropage<M: MemIO>(&self, mem: &M) -> (opr: Operand)
        ensures
            opr == spec_fetch_operand::<M>(self@, mem@, Mode::ZeroPage),
    {
        Operand::Address(mem.read_byte(add16(self.pc, 1)) as u16)
    }

    fn opr_zeropage_x<M: MemIO>(&self, mem: &M) -> (opr: Operand)
        ensures
            opr == spec_fetch_operand::<M>(self@, mem@, Mode::ZeroPageX),
    {
        Operand::Address(add8(self.x, mem.read_byte(add16(self.pc, 1))) as u16)
    }

    fn opr_zeropage_y<M: MemIO>(&self, mem: &M) -> (opr: Operand)
        ensures
            opr == spec_fetch_operand::<M>(self@, mem@, Mode::ZeroPageY),
    {
        Operand::Address(add8(self.y, mem.read_byte(add16(self.pc, 1))) as u16)
    }

    fn opr_indirect<M: MemIO>(&self, mem: &M) -> (opr: Operand)
        ensures
            opr == spec_fetch_operand::<M>(self@, mem@, Mode::Indirect),
    {
        Operand::Address(mem.read_word(mem.read_word(add16(self.pc, 1))))
    }

    fn opr_indirect_x<M: MemIO>(&self, mem: &M) -> (opr: Operand)
        ensures
            opr == spec_fetch_operand::<M>(self@, mem@, Mode::IndirectX),
    {
        Operand::Address(mem.read_word(add8(self.x, mem.read_byte(add16(self.pc, 1))) as u16))
    }

    fn opr_indirect_y<M: MemIO>(&self, mem: &M) -> (opr: Operand)
        ensures
            opr == spec_fetch_operand::<M>(self@, mem@, Mode::IndirectY),
    {
        Operand::Address(
            add16(self.y as u16, mem.read_word(mem.read_byte(add16(self.pc, 1)) as u16)),
        )
    }

    fn opr_relative<M: MemIO>(&self, mem: &M) -> (opr: Operand)
        ensures
            opr == spec_fetch_operand::<M>(self@, mem@, Mode::Relative),
    {
        Operand::Value(mem.read_byte(add16(self.pc, 1)))
    }

    pub fn push_byte<M: MemIO>(&mut self, mem: &mut M, val: u8)
        ensures
            (final(self)@, final(mem)@) == spec_push_byte::<M>(old(self)@, old(mem)@, val),
    {
        mem.write_byte(0x100 + (self.sp as u16), val);
        self.sp = sub8(self.sp, 1);
    }

    pub fn pop_byte<M: MemIO>(&mut self, mem: &M) -> (val: u8)
        ensures
            (final(self)@, val) == spec_pop_byte::<M>(old(self)@, mem@),
    {
        self.sp = add8(self.sp, 1);
        mem.read_byte(0x100 + (self.sp as u16))
    }

    pub fn push_word<M: MemIO>(&mut self, mem: &mut M, addr: u16)
        ensures
            (final(self)@, final(mem)@) == spec_push_word::<M>(old(self)@, old(mem)@, addr),
    {
        let lobyte = lo_byte(addr);
        let hibyte = hi_byte(addr);
        self.push_byte(mem, hibyte);
        self.push_byte(mem, lobyte)
    }

    pub fn pop_word<M: MemIO>(&mut self, mem: &M) -> (w: u16)
        ensures
            (final(self)@, w) == spec_pop_word::<M>(old(self)@, mem@),
    {
        let lobyte = self.pop_byte(mem);
        let hibyte = self.pop_byte(mem);
        make_word(lobyte, hibyte)
    }

    pub fn operand_source<M: MemIO>(&self, mem: &M, operand: &Operand) -> (val: u8)
        ensures
            val == spec_operand_source::<M>(self@, mem@, *operand),
    {
        match *operand {
            Operand::Accumulator => self.a,
            Operand::Value(v) => v,
            Operand::Address(a) => mem.read_byte(a),
        }
    }

    pub fn operand_target(&self, operand: &Operand) -> (addr: u16)
        ensures
            addr == self@.target(*operand),
    {
        match *operand {
            Operand::Accumulator => self.a as u16,
            Operand::Value(v) => v as u16,
            Operand::Address(a) => a,
        }
    }

    fn store_back<M: MemIO>(&mut self, mem: &mut M, opr: Operand, val: u8)
        ensures
            (final(self)@, final(mem)@) == spec_store_back::<M>(old(self)@, old(mem)@, opr, val),
    {
        match opr {
            Operand::Accumulator => self.a = val,
            _ => {
                let addr = self.operand_target(&opr);
                mem.write_byte(addr, val)
            },
        }
    }

    pub fn set_zero_sign_for(&mut self, val: u8)
        ensures
            final(self)@ == old(self)@.with_zero_sign(val),
    {
        self.set_flag(Flags::Zero, val == 0);
        self.set_flag(Flags::Sign, val > 127)
    }

    pub fn jmp_relative(&mut self, offset: u8)
        ensures
            final(self)@ == old(self)@.with_pc(spec_branch_target(old(self)@.pc, offset)),
    {
        if offset > 127 {
            self.pc = sub16(self.pc, 256 - offset as u16);
        } else {
            self.pc = add16(self.pc, offset as u16);
        }
    }

    fn compare(&mut self, reg: u8, val: u8)
        ensures
            final(self)@ == old(self)@.compare(reg, val),
    {
        self.set_flag(Flags::Carry, reg >= val);
        self.set_zero_sign_for(sub8(reg, val))
    }

    pub fn do_adc(&mut self, val: u8)
        ensures
            final(self)@ == old(self)@.adc(val),
    {
        let carry: u16 = if self.get_flag(Flags::Carry) {
            1
        } else {
            0
        };
        let acc = self.a;
        let mut result: u16 = acc as u16 + val as u16 + carry;

        if self.get_flag(Flags::Decimal) {
            self.set_flag(Flags::Zero, result % 256 == 0);
            if (acc % 16) as u16 + (val % 16) as u16 + carry > 9 {
                result = result + 6;
            }
            self.set_flag(Flags::Sign, result % 256 > 127);
            self.set_flag(Flags::Overflow, add_overflows(acc, val, (result % 256) as u8));
            if result > 0x99 {
                result = result + 96;
            }
            self.set_flag(Flags::Carry, result > 0x99)
        } else {
            self.set_zero_sign_for((result % 256) as u8);
            self.set_flag(Flags::Carry, result > 0xFF);
            self.set_flag(Flags::Overflow, add_overflows(acc, val, (result % 256) as u8))
        }

        self.a = (result % 256) as u8
    }

    pub fn do_and(&mut self, val: u8)
        ensures
            final(self)@ == old(self)@.and(val),
    {
        let result = self.a & val;
        self.set_zero_sign_for(result);
        self.a = result;
    }

    pub fn do_asl<M: MemIO>(&mut self, mem: &mut M, opr: Operand)
        ensures
            (final(self)@, final(mem)@) == spec_asl::<M>(old(self)@, old(mem)@, opr),
    {
        let mut val = self.operand_source(mem, &opr);
        self.set_flag(Flags::Carry, (val & 0x80) != 0);
        val = val << 1;
        self.set_zero_sign_for(val);
        self.store_back(mem, opr, val)
    }

    pub fn do_bcc(&mut self, offset: u8)
        ensures
            final(self)@ == old(self)@.branch(!old(self)@.flag(Flags::Carry), offset),
    {
        if !self.get_flag(Flags::Carry) {
            self.jmp_relative(offset)
        }
    }

    pub fn do_bcs(&mut self, offset: u8)
        ensures
            final(self)@ == old(self)@.branch(old(self)@.flag(Flags::Carry), offset),
    {
        if self.get_flag(Flags::Carry) {
            self.jmp_relative(offset)
        }
    }

    pub fn do_beq(&mut self, offset: u8)
        ensures
            final(self)@ == old(self)@.branch(old(self)@.flag(Flags::Zero), offset),
    {
        if self.get_flag(Flags::Zero) {
            self.jmp_relative(offset)
        }
    }

    pub fn do_bit(&mut self, val: u8)
        ensures
            final(self)@ == old(self)@.bit(val),
    {
        self.set_flag(Flags::Sign, val > 127);
        self.set_flag(Flags::Overflow, (val & 0x40) != 0);

        let result = self.a & val;
        self.set_flag(Flags::Zero, result == 0);
    }

    pub fn do_bmi(&mut self, offset: u8)
        ensures
            final(self)@ == old(self)@.branch(old(self)@.flag(Flags::Sign), offset),
    {
        if self.get_flag(Flags::Sign) {
            self.jmp_relative(offset)
        }
    }

    pub fn do_bne(&mut self, offset: u8)
        ensures
            final(self)@ == old(self)@.branch(!old(self)@.flag(Flags::Zero), offset),
    {
        if !self.get_flag(Flags::Zero) {
            self.jmp_relative(offset)
        }
    }

    pub fn do_bpl(&mut self, offset: u8)
        ensures
            final(self)@ == old(self)@.branch(!old(self)@.flag(Flags::Sign), offset),
    {
        if !self.get_flag(Flags::Sign) {
            self.jmp_relative(offset)
        }
    }

    pub fn do_bvc(&mut self, offset: u8)
        ensures
            final(self)@ == old(self)@.branch(!old(self)@.flag(Flags::Overflow), offset),
    {
        if !self.get_flag(Flags::Overflow) {
            self.jmp_relative(offset)
        }
    }

    pub fn do_bvs(&mut self, offset: u8)
        ensures
            final(self)@ == old(self)@.branch(old(self)@.flag(Flags::Overflow), offset),
    {
        if self.get_flag(Flags::Overflow) {
            self.jmp_relative(offset)
        }
    }

    pub fn do_brk<M: MemIO>(&mut self, mem: &mut M)
        ensures
            (final(self)@, final(mem)@) == spec_brk::<M>(old(self)@, old(mem)@),
    {
        self.pc = add16(self.pc, 1);
        let retaddr = self.pc;
        self.push_word(mem, retaddr);
        self.set_flag(Flags::Break, true);
        let status = self.st;
        self.push_byte(mem, status);
        self.set_flag(Flags::Interrupt, true);
        self.pc = mem.read_word(0xFFFE)
    }

    pub fn do_irq<M: MemIO>(&mut self, mem: &mut M)
        ensures
            (final(self)@, final(mem)@) == spec_irq::<M>(old(self)@, old(mem)@),
    {
        if !self.get_flag(Flags::Interrupt) {
            let retaddr = self.pc;
            self.push_word(mem, retaddr);
            self.set_flag(Flags::Break, false);
            let status = self.st;
            self.push_byte(mem, status);
            self.set_flag(Flags::Interrupt, true);
            self.pc = mem.read_word(0xFFFE);
        }
    }

    pub fn do_clc(&mut self)
        ensures
            final(self)@ == old(self)@.with_flag(Flags::Carry, false),
    {
        self.set_flag(Flags::Carry, false)
    }

    pub fn do_cld(&mut self)
        ensures
            final(self)@ == old(self)@.with_flag(Flags::Decimal, false),
    {
        self.set_flag(Flags::Decimal, false)
    }

    pub fn do_cli(&mut self)
        ensures
            final(self)@ == old(self)@.with_flag(Flags::Interrupt, false),
    {
        self.set_flag(Flags::Interrupt, false)
    }

    pub fn do_clv(&mut self)
        ensures
            final(self)@ == old(self)@.with_flag(Flags::Overflow, false),
    {
        self.set_flag(Flags::Overflow, false)
    }

    pub fn do_cmp(&mut self, val: u8)
        ensures
            final(self)@ == old(self)@.compare(old(self)@.a, val),
    {
        let reg = self.a;
        self.compare(reg, val)
    }

    pub fn do_cpx(&mut self, val: u8)
        ensures
            final(self)@ == old(self)@.compare(old(self)@.x, val),
    {
        let reg = self.x;
        self.compare(reg, val)
    }

    pub fn do_cpy(&mut self, val: u8)
        ensures
            final(self)@ == old(self)@.compare(old(self)@.y, val),
    {
        let reg = self.y;
        self.compare(reg, val)
    }

    pub fn do_dec<M: MemIO>(&mut self, mem: &mut M, addr: u16)
        ensures
            (final(self)@, final(mem)@) == spec_dec::<M>(old(self)@, old(mem)@, addr),
    {
        let val = sub8(mem.read_byte(addr), 1);
        self.set_zero_sign_for(val);
        mem.write_byte(addr, val)
    }

    pub fn do_dex(&mut self)
        ensures
            final(self)@ == old(self)@.dex(),
    {
        let result = sub8(self.x, 1);
        self.x = result;
        self.set_zero_sign_for(result)
    }

    pub fn do_dey(&mut self)
        ensures
            final(self)@ == old(self)@.dey(),
    {
        let result = sub8(self.y, 1);
        self.y = result;
        self.set_zero_sign_for(result)
    }

    pub fn do_eor(&mut self, val: u8)
        ensures
            final(self)@ == old(self)@.eor(val),
    {
        let result = self.a ^ val;
        self.set_zero_sign_for(result);
        self.a = result;
    }

    pub fn do_inc<M: MemIO>(&mut self, mem: &mut M, addr: u16)
        ensures
            (final(self)@, final(mem)@) == spec_inc::<M>(old(self)@, old(mem)@, addr),
    {
        let val = add8(mem.read_byte(addr), 1);
        self.set_zero_sign_for(val);
        mem.write_byte(addr, val)
    }

    pub fn do_inx(&mut self)
        ensures
            final(self)@ == old(self)@.inx(),
    {
        let val = add8(self.x, 1);
        self.set_zero_sign_for(val);
        self.x = val;
    }

    pub fn do_iny(&mut self)
        ensures
            final(self)@ == old(self)@.iny(),
    {
        let val = add8(self.y, 1);
        self.set_zero_sign_for(val);
        self.y = val
    }

    pub fn do_jmp(&mut self, addr: u16)
        ensures
            final(self)@ == old(self)@.with_pc(addr),
    {
        self.pc = addr;
    }

    pub fn do_jsr<M: MemIO>(&mut self, mem: &mut M, addr: u16)
        ensures
            (final(self)@, final(mem)@) == spec_jsr::<M>(old(self)@, old(mem)@, addr),
    {
        let val = sub16(self.pc, 1);
        self.push_word(mem, val);
        self.pc = addr
    }

    pub fn do_lda(&mut self, val: u8)
        ensures
            final(self)@ == old(self)@.lda(val),
    {
        self.a = val;
        self.set_zero_sign_for(val)
    }

    pub fn do_ldx(&mut self, val: u8)
        ensures
            final(self)@ == old(self)@.ldx(val),
    {
        self.x = val;
        self.set_zero_sign_for(val)
    }

    pub fn do_ldy(&mut self, val: u8)
        ensures
            final(self)@ == old(self)@.ldy(val),
    {
        self.y = val;
        self.set_zero_sign_for(val)
    }

    pub fn do_lsr<M: MemIO>(&mut self, mem: &mut M, opr: Operand)
        ensures
            (final(self)@, final(mem)@) == spec_lsr::<M>(old(self)@, old(mem)@, opr),
    {
        let mut val = self.operand_source(mem, &opr);
        self.set_flag(Flags::Carry, (val & 0x01) != 0);
        val = val >> 1;
        self.set_zero_sign_for(val);
        self.store_back(mem, opr, val)
    }

    pub fn do_ora(&mut self, val: u8)
        ensures
            final(self)@ == old(self)@.ora(val),
    {
        let result = self.a | val;
        self.set_zero_sign_for(result);
        self.a = result;
    }

    pub fn do_rol<M: MemIO>(&mut self, mem: &mut M, opr: Operand)
        ensures
            (final(self)@, final(mem)@) == spec_rol::<M>(old(self)@, old(mem)@, opr),
    {
        let mut val = self.operand_source(mem, &opr) as u16;
        val = val * 2;
        if self.get_flag(Flags::Carry) {
            val = val + 1;
        }
        self.set_flag(Flags::Carry, val > 0xFF);
        self.set_zero_sign_for((val % 256) as u8);
        self.store_back(mem, opr, (val % 256) as u8)
    }

    pub fn do_ror<M: MemIO>(&mut self, mem: &mut M, opr: Operand)
        ensures
            (final(self)@, final(mem)@) == spec_ror::<M>(old(self)@, old(mem)@, opr),
    {
        let mut val = self.operand_source(mem, &opr) as u16;
        if self.get_flag(Flags::Carry) {
            val = val + 0x100;
        }
        self.set_flag(Flags::Carry, val % 2 == 1);
        val = val / 2;
        self.set_zero_sign_for(val as u8);
        self.store_back(mem, opr, val as u8)
    }

    pub fn do_nop(&mut self)
        ensures
            final(self)@ == old(self)@,
    {
    }

    pub fn do_pha<M: MemIO>(&mut self, mem: &mut M)
        ensures
            (final(self)@, final(mem)@) == spec_pha::<M>(old(self)@, old(mem)@),
    {
        let val = self.a;
        self.push_byte(mem, val)
    }

    pub fn do_pla<M: MemIO>(&mut self, mem: &M)
        ensures
            final(self)@ == spec_pla::<M>(old(self)@, mem@),
    {
        let val = self.pop_byte(mem);
        self.a = val;
        self.set_zero_sign_for(val)
    }

    pub fn do_plp<M: MemIO>(&mut self, mem: &M)
        ensures
            final(self)@ == spec_plp::<M>(old(self)@, mem@),
    {
        self.st = self.pop_byte(mem) | 0x20;
    }

    pub fn do_php<M: MemIO>(&mut self, mem: &mut M)
        ensures
            (final(self)@, final(mem)@) == spec_php::<M>(old(self)@, old(mem)@),
    {
        let val = self.st | 0x30;
        self.push_byte(mem, val)
    }

    pub fn do_rti<M: MemIO>(&mut self, mem: &M)
        ensures
            final(self)@ == spec_rti::<M>(old(self)@, mem@),
    {
        self.st = self.pop_byte(mem) | 0x20;
        self.pc = self.pop_word(mem);
    }

    pub fn do_rts<M: MemIO>(&mut self, mem: &M)
        ensures
            final(self)@ == spec_rts::<M>(old(self)@, mem@),
    {
        let addr = add16(self.pop_word(mem), 1);
        self.pc = addr
    }

    pub fn do_sbc(&mut self, val: u8)
        ensures
            final(self)@ == old(self)@.sbc(val),
    {
        let borrow: i32 = if self.get_flag(Flags::Carry) {
            0
        } else {
            1
        };
        let acc = self.a;
        let mut result: i32 = acc as i32 - val as i32 - borrow;
        self.set_zero_sign_for(low8(result));
        self.set_flag(Flags::Overflow, sub_overflows(acc, val, low8(result)));

        if self.get_flag(Flags::Decimal) {
            if (acc % 16) as i32 - borrow < (val % 16) as i32 {
                result = result - 6;
            }
            if result < 0 || result > 0x99 {
                result = result - 0x60;
            }
        }

        self.set_flag(Flags::Carry, result >= 0);
        self.a = low8(result)
    }

    pub fn do_sec(&mut self)
        ensures
            final(self)@ == old(self)@.with_flag(Flags::Carry, true),
    {
        self.set_flag(Flags::Carry, true)
    }

    pub fn do_sed(&mut self)
        ensures
            final(self)@ == old(self)@.with_flag(Flags::Decimal, true),
    {
        self.set_flag(Flags::Decimal, true)
    }

    pub fn do_sei(&mut self)
        ensures
            final(self)@ == old(self)@.with_flag(Flags::Interrupt, true),
    {
        self.set_flag(Flags::Interrupt, true)
    }

    pub fn do_sta<M: MemIO>(&mut self, mem: &mut M, addr: u16)
        ensures
            final(self)@ == old(self)@,
            final(mem)@ == M::spec_write(old(mem)@, addr, old(self)@.a),
    {
        let val = self.a;
        mem.write_byte(addr, val)
    }

    pub fn do_stx<M: MemIO>(&mut self, mem: &mut M, addr: u16)
        ensures
            final(self)@ == old(self)@,
            final(mem)@ == M::spec_write(old(mem)@, addr, old(self)@.x),
    {
        let val = self.x;
        mem.write_byte(addr, val)
    }

    pub fn do_sty<M: MemIO>(&mut self, mem: &mut M, addr: u16)
        ensures
            final(self)@ == old(self)@,
            final(mem)@ == M::spec_write(old(mem)@, addr, old(self)@.y),
    {
        let val = self.y;
        mem.write_byte(addr, val)
    }

    pub fn do_tax(&mut self)
        ensures
            final(self)@ == old(self)@.tax(),
    {
        let val = self.a;
        self.x = self.a;
        self.set_zero_sign_for(val)
    }

    pub fn do_tay(&mut self)
        ensures
            final(self)@ == old(self)@.tay(),
    {
        let val = self.a;
        self.y = self.a;
        self.set_zero_sign_for(val)
    }

    pub fn do_tsx(&mut self)
        ensures
            final(self)@ == old(self)@.tsx(),
    {
        let val = self.sp;
        self.x = self.sp;
        self.set_zero_sign_for(val)
    }

    pub fn do_txa(&mut self)
        ensures
            final(self)@ == old(self)@.txa(),
    {
        let val = self.x;
        self.a = self.x;
        self.set_zero_sign_for(val)
    }

    pub fn do_tya(&mut self)
        ensures
            final(self)@ == old(self)@.tya(),
    {
        let val = self.y;
        self.a = self.y;
        self.set_zero_sign_for(val)
    }

    pub fn do_txs(&mut self)
        ensures
            final(self)@ == old(self)@.txs(),
    {
        self.sp = self.x
    }

    /// The status byte as the monitor shows it: a letter for each flag that
    /// is set, a dot for each that is clear.
    pub fn pp_flags(&self, flags: &u8) -> (s: String)
        ensures
            s@ == spec_pp_flags(*flags),
    {
        let mut s = String::new();
        let mut i: u8 = 0;
        while i < 8
            invariant
                i <= 8,
                s@ == spec_pp_flags(*flags).subrange(0, i as int),
            decreases 8 - i,
        {
            let c = if bit(*flags, 7 - i) {
                match i {
                    0 => 'S',
                    1 => 'V',
                    2 => '-',
                    3 => 'B',
                    4 => 'D',
                    5 => 'I',
                    6 => 'Z',
                    _ => 'C',
                }
            } else {
                '.'
            };
            s.push(c);
            assert(s@ =~= spec_pp_flags(*flags).subrange(0, i as int + 1));
            i = i + 1;
        }
        assert(spec_pp_flags(*flags).subrange(0, 8) =~= spec_pp_flags(*flags));
        s
    }

    /// The registers as one line of text.
    pub fn to_string(&self) -> (s: String)
        ensures
            s@ == self@.describe(),
    {
        let mut s = String::new();
        s.append("PC:$");
        push_hex4(&mut s, self.pc);
        s.append(" A:$");
        push_hex2(&mut s, self.a);
        s.append(" X:$");
        push_hex2(&mut s, self.x);
        s.append(" Y:$");
        push_hex2(&mut s, self.y);
        s.append(" SP:$");
        push_hex2(&mut s, self.sp);
        s.append(" ST:");
        push_bin8(&mut s, self.st);
        s.append(" [");
        let flags = self.pp_flags(&self.st);
        s.append(flags.as_str());
        s.append("]");
        assert(s@ =~= self@.describe());
        s
    }
}

} // verus!
