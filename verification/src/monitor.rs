//! The debug monitor's command language: a command letter and, for some
//! commands, a hexadecimal address.

use vstd::prelude::*;

verus! {

/// What a monitor line asks for.
#[derive(Clone, Copy, Debug, PartialEq, Eq)]
pub enum Command {
    /// `?`: show the commands.
    Help,
    /// `x`: leave the emulator.
    Exit,
    /// `g`: run until the next break.
    Go,
    /// `l` with a file name: load that program file.
    Load,
    /// `l` alone: list the files.
    ListFiles,
    /// `s`, or an empty line: run one instruction.
    Step,
    /// `r`: show the registers.
    Registers,
    /// `m` with an address: dump memory from there.
    Memory(u16),
    /// `p` with an address: set the program counter.
    SetPc(u16),
    /// `b` with an address: set the breakpoint.
    SetBreakpoint(u16),
    /// `m`, `p` or `b` with something that is no hexadecimal number.
    BadAddress,
    /// Anything else, and `m`, `p` or `b` without an address: do nothing.
    Nothing,
}

/// The value of a hexadecimal digit, in either case.
pub open spec fn spec_digit_value(b: u8) -> Option<int> {
    if 0x30 <= b <= 0x39 {
        Some(b - 0x30)
    } else if 0x41 <= b <= 0x46 {
        Some(b - 0x41 + 10)
    } else if 0x61 <= b <= 0x66 {
        Some(b - 0x61 + 10)
    } else {
        None
    }
}

/// Whether every byte is a hexadecimal digit.
pub open spec fn spec_all_digits(text: Seq<u8>) -> bool {
    forall|i: int| 0 <= i < text.len() ==> spec_digit_value(#[trigger] text[i]) is Some
}

/// The number that a string of hexadecimal digits writes.
pub open spec fn spec_hex_value(text: Seq<u8>) -> int
    decreases text.len(),
{
    if text.len() == 0 {
        0
    } else {
        spec_hex_value(text.drop_last()) * 16 + match spec_digit_value(text.last()) {
            Some(d) => d,
            None => 0,
        }
    }
}

/// Whether a text is a hexadecimal number that the monitor takes: one digit
/// or more, nothing but digits, and a value that fits in 63 bits.
pub open spec fn spec_is_address(text: Seq<u8>) -> bool {
    &&& text.len() > 0
    &&& spec_all_digits(text)
    &&& spec_hex_value(text) <= 0x7FFF_FFFF_FFFF_FFFF
}

/// The address that a hexadecimal number names: its low sixteen bits.
pub open spec fn spec_address(text: Seq<u8>) -> u16 {
    (spec_hex_value(text) % 0x10000) as u16
}

/// The command that a line's first word and second word ask for.
pub open spec fn spec_decode_command(name: Option<Seq<u8>>, arg: Option<Seq<u8>>) -> Command {
    match name {
        None => Command::Step,
        Some(n) => {
            if n.len() != 1 {
                Command::Nothing
            } else if n[0] == 0x3F {
                Command::Help
            } else if n[0] == 0x78 {
                Command::Exit
            } else if n[0] == 0x67 {
                Command::Go
            } else if n[0] == 0x6C {
                if arg is Some {
                    Command::Load
                } else {
                    Command::ListFiles
                }
            } else if n[0] == 0x73 {
                Command::Step
            } else if n[0] == 0x72 {
                Command::Registers
            } else if n[0] == 0x6D || n[0] == 0x70 || n[0] == 0x62 {
                match arg {
                    None => Command::Nothing,
                    Some(a) => {
                        if !spec_is_address(a) {
                            Command::BadAddress
                        } else if n[0] == 0x6D {
                            Command::Memory(spec_address(a))
                        } else if n[0] == 0x70 {
                            Command::SetPc(spec_address(a))
                        } else {
                            Command::SetBreakpoint(spec_address(a))
                        }
                    },
                }
            } else {
                Command::Nothing
            }
        },
    }
}

fn digit_value(b: u8) -> (r: Option<u8>)
    ensures
        match r {
            Some(d) => spec_digit_value(b) == Some(d as int) && d < 16,
            None => spec_digit_value(b) is None,
        },
{
    if 0x30 <= b && b <= 0x39 {
        Some(b - 0x30)
    } else if 0x41 <= b && b <= 0x46 {
        Some(b - 0x41 + 10)
    } else if 0x61 <= b && b <= 0x66 {
        Some(b - 0x61 + 10)
    } else {
        None
    }
}

proof fn lemma_hex_value_grows(text: Seq<u8>, k: int)
    requires
        0 <= k <= text.len(),
    ensures
        0 <= spec_hex_value(text.take(k)) <= spec_hex_value(text),
    decreases text.len() - k,
{
    lemma_hex_value_nonneg(text.take(k));
    if k < text.len() {
        lemma_hex_value_grows(text, k + 1);
        assert(text.take(k + 1).drop_last() =~= text.take(k));
    } else {
        assert(text.take(k) =~= text);
    }
}

proof fn lemma_hex_value_nonneg(text: Seq<u8>)
    ensures
        0 <= spec_hex_value(text),
    decreases text.len(),
{
    if text.len() > 0 {
        lemma_hex_value_nonneg(text.drop_last());
    }
}

/// Reads a hexadecimal number and takes its low sixteen bits as an address.
pub fn parse_hex(text: &[u8]) -> (r: Option<u16>)
    ensures
        spec_is_address(text@) ==> r == Some(spec_address(text@)),
        !spec_is_address(text@) ==> r is None,
{
    if text.len() == 0 {
        return None;
    }
    let mut acc: u64 = 0;
    let mut i: usize = 0;
    while i < text.len()
        invariant
            i <= text.len(),
            acc == spec_hex_value(text@.take(i as int)),
            acc <= 0x7FFF_FFFF_FFFF_FFFF,
            spec_all_digits(text@.take(i as int)),
        decreases text.len() - i,
    {
        let ghost prefix = text@.take(i as int + 1);
        proof {
            assert(prefix.drop_last() =~= text@.take(i as int));
            assert(prefix.last() == text@[i as int]);
        }
        match digit_value(text[i]) {
            None => {
                assert(!spec_all_digits(text@));
                return None;
            },
            Some(d) => {
                if acc > (0x7FFF_FFFF_FFFF_FFFF - d as u64) / 16 {
                    proof {
                        lemma_hex_value_grows(text@, i as int + 1);
                    }
                    return None;
                }
                acc = acc * 16 + d as u64;
                assert forall|k: int| 0 <= k < prefix.len() implies spec_digit_value(
                    #[trigger] prefix[k],
                ) is Some by {
                    if k < i {
                        assert(prefix[k] == text@.take(i as int)[k]);
                    }
                }
            },
        }
        i = i + 1;
    }
    assert(text@.take(i as int) =~= text@);
    Some((acc % 0x10000) as u16)
}

/// Decodes a monitor line from its first two words.
pub fn decode_command(name: Option<&[u8]>, arg: Option<&[u8]>) -> (c: Command)
    ensures
        c == spec_decode_command(
            match name {
                Some(n) => Some(n@),
                None => None,
            },
            match arg {
                Some(a) => Some(a@),
                None => None,
            },
        ),
{
    let n = match name {
        None => {
            return Command::Step;
        },
        Some(n) => n,
    };
    if n.len() != 1 {
        return Command::Nothing;
    }
    let letter = n[0];
    if letter == 0x3F {
        Command::Help
    } else if letter == 0x78 {
        Command::Exit
    } else if letter == 0x67 {
        Command::Go
    } else if letter == 0x6C {
        match arg {
            Some(_) => Command::Load,
            None => Command::ListFiles,
        }
    } else if letter == 0x73 {
        Command::Step
    } else if letter == 0x72 {
        Command::Registers
    } else if letter == 0x6D || letter == 0x70 || letter == 0x62 {
        match arg {
            None => Command::Nothing,
            Some(a) => match parse_hex(a) {
                None => Command::BadAddress,
                Some(addr) => {
                    if letter == 0x6D {
                        Command::Memory(addr)
                    } else if letter == 0x70 {
                        Command::SetPc(addr)
                    } else {
                        Command::SetBreakpoint(addr)
                    }
                },
            },
        }
    } else {
        Command::Nothing
    }
}

} // verus!
