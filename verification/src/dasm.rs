//! The disassembler: one instruction as a line of assembler text.

use vstd::prelude::*;
use vstd::string::StringExecFns;
use crate::bits::{add16, spec_add16};
use crate::cpu::{invalid_opcode_message, spec_invalid_opcode_message};
use crate::memory::MemIO;
use crate::opcodes::{get_opcode, spec_get_opcode, Mode, Opcode};
use crate::text::{push_hex2, push_hex4, spec_hex2, spec_hex4};

verus! {

/// The operand of an instruction as text, from its two operand bytes (the
/// second is only looked at where the mode has one).
pub open spec fn spec_operand_text(mode: Mode, b1: u8, b2: u8) -> Seq<char> {
    match mode {
        Mode::Implied | Mode::Accumulator => Seq::empty(),
        Mode::Immediate => " #$"@ + spec_hex2(b1),
        Mode::Absolute => " $"@ + spec_hex2(b2) + spec_hex2(b1),
        Mode::AbsoluteX => " $"@ + spec_hex2(b2) + spec_hex2(b1) + ", X"@,
        Mode::AbsoluteY => " $"@ + spec_hex2(b2) + spec_hex2(b1) + ", Y"@,
        Mode::Indirect => " ($"@ + spec_hex2(b2) + spec_hex2(b1) + ")"@,
        Mode::IndirectX => " ($"@ + spec_hex2(b1) + ", X)"@,
        Mode::IndirectY => " ($"@ + spec_hex2(b1) + "), Y"@,
        Mode::ZeroPage => " $"@ + spec_hex2(b1),
        Mode::ZeroPageX => " $"@ + spec_hex2(b1) + ", X"@,
        Mode::ZeroPageY => " $"@ + spec_hex2(b1) + ", Y"@,
        Mode::Relative => " $"@ + spec_hex2(b1),
    }
}

/// The line for the instruction `op` found at `ip`: the address, the
/// mnemonic, and the operand.
pub open spec fn spec_disassembly<M: MemIO>(m: M::V, ip: u16, op: Opcode) -> Seq<char> {
    "$"@ + spec_hex4(ip) + " "@ + op.name.spec_name() + spec_operand_text(
        op.mode,
        M::spec_read(m, spec_add16(ip, 1)),
        M::spec_read(m, spec_add16(ip, 2)),
    )
}

fn operand_text(mode: Mode, b1: u8, b2: u8) -> (s: String)
    ensures
        s@ == spec_operand_text(mode, b1, b2),
{
    let mut s = String::new();
    match mode {
        Mode::Implied | Mode::Accumulator => {},
        Mode::Immediate => {
            s.append(" #$");
            push_hex2(&mut s, b1);
        },
        Mode::Absolute => {
            s.append(" $");
            push_hex2(&mut s, b2);
            push_hex2(&mut s, b1);
        },
        Mode::AbsoluteX => {
            s.append(" $");
            push_hex2(&mut s, b2);
            push_hex2(&mut s, b1);
            s.append(", X");
        },
        Mode::AbsoluteY => {
            s.append(" $");
            push_hex2(&mut s, b2);
            push_hex2(&mut s, b1);
            s.append(", Y");
        },
        Mode::Indirect => {
            s.append(" ($");
            push_hex2(&mut s, b2);
            push_hex2(&mut s, b1);
            s.append(")");
        },
        Mode::IndirectX => {
            s.append(" ($");
            push_hex2(&mut s, b1);
            s.append(", X)");
        },
        Mode::IndirectY => {
            s.append(" ($");
            push_hex2(&mut s, b1);
            s.append("), Y");
        },
        Mode::ZeroPage => {
            s.append(" $");
            push_hex2(&mut s, b1);
        },
        Mode::ZeroPageX => {
            s.append(" $");
            push_hex2(&mut s, b1);
            s.append(", X");
        },
        Mode::ZeroPageY => {
            s.append(" $");
            push_hex2(&mut s, b1);
            s.append(", Y");
        },
        Mode::Relative => {
            s.append(" $");
            push_hex2(&mut s, b1);
        },
    }
    assert(s@ =~= spec_operand_text(mode, b1, b2));
    s
}

/// Disassembles the instruction at `ip` and moves `ip` past it.
pub fn disassemble_step<M: MemIO>(mem: &M, ip: &mut u16) -> (r: Result<String, String>)
    ensures
        match spec_get_opcode(M::spec_read(mem@, *old(ip))) {
            Some(op) => {
                &&& r is Ok
                &&& r->Ok_0@ == spec_disassembly::<M>(mem@, *old(ip), op)
                &&& *final(ip) == spec_add16(*old(ip), op.bytes as u16)
            },
            None => {
                &&& r is Err
                &&& r->Err_0@ == spec_invalid_opcode_message(
                    M::spec_read(mem@, *old(ip)),
                    *old(ip),
                )
                &&& *final(ip) == *old(ip)
            },
        },
{
    let mut result = String::new();
    match parse_opcode(mem, ip) {
        Ok(s) => {
            result.append(s.as_str());
            assert(result@ =~= s@);
            Ok(result)
        },
        Err(e) => Err(e),
    }
}

/// Reads the instruction at `ip` as text and moves `ip` past its opcode and
/// operand bytes. A byte that is no documented opcode fails with a message
/// and leaves `ip` where it was.
pub fn parse_opcode<M: MemIO>(mem: &M, ip: &mut u16) -> (r: Result<String, String>)
    ensures
        match spec_get_opcode(M::spec_read(mem@, *old(ip))) {
            Some(op) => {
                &&& r is Ok
                &&& r->Ok_0@ == spec_disassembly::<M>(mem@, *old(ip), op)
                &&& *final(ip) == spec_add16(*old(ip), op.bytes as u16)
            },
            None => {
                &&& r is Err
                &&& r->Err_0@ == spec_invalid_opcode_message(
                    M::spec_read(mem@, *old(ip)),
                    *old(ip),
                )
                &&& *final(ip) == *old(ip)
            },
        },
{
    let b = mem.read_byte(*ip);
    let opcode = match get_opcode(b) {
        Some(op) => op,
        None => {
            return Err(invalid_opcode_message(b, *ip));
        },
    };
    proof {
        crate::opcodes::lemma_opcode_entry_ranges(b);
    }
    let addr = *ip;
    let b1 = mem.read_byte(add16(addr, 1));
    let b2 = mem.read_byte(add16(addr, 2));
    *ip = add16(addr, opcode.bytes as u16);

    let s = operand_text(opcode.mode, b1, b2);

    let mut result = String::new();
    result.append("$");
    push_hex4(&mut result, addr);
    result.append(" ");
    result.append(opcode.name.name());
    result.append(s.as_str());
    assert(result@ =~= spec_disassembly::<M>(mem@, addr, opcode));
    Ok(result)
}

/// The monitor's listing of up to `n` instructions from `ip` on, as lines of
/// text. The first line is marked with a star. A byte that is no documented
/// opcode ends the listing with a line that says so.
pub open spec fn spec_listing<M: MemIO>(m: M::V, ip: u16, first: bool, n: nat) -> Seq<Seq<char>>
    decreases n,
{
    if n == 0 {
        Seq::empty()
    } else {
        match spec_get_opcode(M::spec_read(m, ip)) {
            Some(op) => seq![
                (if first {
                    "* "@
                } else {
                    "  "@
                }) + spec_disassembly::<M>(m, ip, op),
            ] + spec_listing::<M>(m, spec_add16(ip, op.bytes as u16), false, (n - 1) as nat),
            None => seq!["Error: "@ + spec_invalid_opcode_message(M::spec_read(m, ip), ip)],
        }
    }
}

/// The text of each line.
pub open spec fn spec_texts(lines: Seq<String>) -> Seq<Seq<char>> {
    Seq::new(lines.len(), |i: int| lines[i]@)
}

/// Lists up to `n` instructions from `ip` on.
pub fn list_instructions<M: MemIO>(mem: &M, ip: u16, n: usize) -> (lines: Vec<String>)
    ensures
        spec_texts(lines@) == spec_listing::<M>(mem@, ip, true, n as nat),
{
    let mut lines: Vec<String> = Vec::new();
    let mut at: u16 = ip;
    let mut index: usize = 0;
    while index < n
        invariant
            index <= n,
            spec_listing::<M>(mem@, ip, true, n as nat) == spec_texts(lines@) + spec_listing::<M>(
                mem@,
                at,
                index == 0,
                (n - index) as nat,
            ),
        decreases n - index,
    {
        let ghost before = lines@;
        let mut line = String::new();
        match disassemble_step(mem, &mut at) {
            Ok(s) => {
                if index == 0 {
                    line.append("* ");
                } else {
                    line.append("  ");
                }
                line.append(s.as_str());
                lines.push(line);
                assert(spec_texts(lines@) =~= spec_texts(before).push(line@));
                assert(spec_listing::<M>(mem@, ip, true, n as nat) =~= spec_texts(lines@)
                    + spec_listing::<M>(mem@, at, false, (n - index - 1) as nat));
            },
            Err(e) => {
                line.append("Error: ");
                line.append(e.as_str());
                lines.push(line);
                assert(spec_texts(lines@) =~= spec_texts(before).push(line@));
                assert(spec_listing::<M>(mem@, ip, true, n as nat) =~= spec_texts(lines@));
                return lines;
            },
        }
        index = index + 1;
    }
    assert(spec_texts(lines@) =~= spec_listing::<M>(mem@, ip, true, n as nat));
    lines
}

} // verus!
