use retroc64::bits::{
    add16, add8, bit, bit_pair, hi_byte, lo_byte, make_word, pow2, sub16, sub8, widen,
};
use retroc64::cpu::invalid_opcode_message;
use retroc64::dasm::{disassemble_step, list_instructions, parse_opcode};
use retroc64::memc64::MemC64;
use retroc64::memory::MemIO;
use retroc64::monitor::{decode_command, parse_hex, Command};
use retroc64::text::{hex_digit, push_bin8, push_hex2, push_hex4, push_hex_usize};

fn line(program: &[u8]) -> (Result<String, String>, u16) {
    let mut mem = MemC64::new();
    mem.load_ram(&program.to_vec(), 0x0200);
    let mut ip: u16 = 0x0200;
    let r = parse_opcode(&mem, &mut ip);
    (r, ip)
}

#[test]
fn bytes_and_words() {
    assert_eq!(lo_byte(0x1234), 0x34);
    assert_eq!(hi_byte(0x1234), 0x12);
    assert_eq!(make_word(0x34, 0x12), 0x1234);
    assert_eq!(add16(0xFFFF, 2), 0x0001);
    assert_eq!(sub16(0x0001, 2), 0xFFFF);
    assert_eq!(add8(0xFF, 2), 0x01);
    assert_eq!(sub8(0x01, 2), 0xFF);
    assert_eq!(widen(0xFE), 0x00FE);
    assert_eq!(pow2(0), 1);
    assert_eq!(pow2(7), 128);
    assert_eq!(pow2(8), 1);
    assert!(bit(0x80, 7));
    assert!(!bit(0x80, 6));
    assert!(bit(0x01, 0));
    assert_eq!(bit_pair(0b1110_0100, 6), 3);
    assert_eq!(bit_pair(0b1110_0100, 4), 2);
    assert_eq!(bit_pair(0b1110_0100, 2), 1);
    assert_eq!(bit_pair(0b1110_0100, 0), 0);
}

#[test]
fn hexadecimal_text() {
    let mut s = String::new();
    push_hex2(&mut s, 0x0A);
    push_hex4(&mut s, 0xBEEF);
    push_hex_usize(&mut s, 0x12);
    push_hex_usize(&mut s, 0x1234567);
    push_bin8(&mut s, 0xA5);
    assert_eq!(s, "0ABEEF0012123456710100101");
    assert_eq!(hex_digit(0), "0");
    assert_eq!(hex_digit(9), "9");
    assert_eq!(hex_digit(10), "A");
    assert_eq!(hex_digit(15), "F");
    assert_eq!(hex_digit(200), "F");
    assert_eq!(invalid_opcode_message(0xFF, 0x00AB), "Invalid opcode FF (IP = 00AB)!");
}

#[test]
fn disassembly_of_each_mode() {
    assert_eq!(line(&[0xEA]), (Ok("$0200 NOP".to_string()), 0x0201));
    assert_eq!(line(&[0x0A]), (Ok("$0200 ASL".to_string()), 0x0201));
    assert_eq!(line(&[0xA9, 0x05]), (Ok("$0200 LDA #$05".to_string()), 0x0202));
    assert_eq!(line(&[0x8D, 0x20, 0xD0]), (Ok("$0200 STA $D020".to_string()), 0x0203));
    assert_eq!(line(&[0xBD, 0x34, 0x12]), (Ok("$0200 LDA $1234, X".to_string()), 0x0203));
    assert_eq!(line(&[0xB9, 0x34, 0x12]), (Ok("$0200 LDA $1234, Y".to_string()), 0x0203));
    assert_eq!(line(&[0x6C, 0x34, 0x12]), (Ok("$0200 JMP ($1234)".to_string()), 0x0203));
    assert_eq!(line(&[0xA1, 0x10]), (Ok("$0200 LDA ($10, X)".to_string()), 0x0202));
    assert_eq!(line(&[0xB1, 0x10]), (Ok("$0200 LDA ($10), Y".to_string()), 0x0202));
    assert_eq!(line(&[0xA5, 0x10]), (Ok("$0200 LDA $10".to_string()), 0x0202));
    assert_eq!(line(&[0xB5, 0x10]), (Ok("$0200 LDA $10, X".to_string()), 0x0202));
    assert_eq!(line(&[0xB6, 0x10]), (Ok("$0200 LDX $10, Y".to_string()), 0x0202));
    assert_eq!(line(&[0xD0, 0xFB]), (Ok("$0200 BNE $FB".to_string()), 0x0202));
}

#[test]
fn disassembly_of_an_unknown_byte() {
    assert_eq!(line(&[0x02]), (Err("Invalid opcode 02 (IP = 0200)!".to_string()), 0x0200));
    let mem = MemC64::new();
    let mut ip: u16 = 0x0001;
    assert_eq!(
        disassemble_step(&mem, &mut ip),
        Err("Invalid opcode 07 (IP = 0001)!".to_string())
    );
    assert_eq!(ip, 0x0001);
}

#[test]
fn disassembly_steps_through_a_program() {
    let mut mem = MemC64::new();
    mem.load_ram(&vec![0xA2, 0x00, 0xE8, 0xE0, 0x10, 0xD0, 0xFB, 0x00], 0x0200);
    let mut ip: u16 = 0x0200;
    let mut lines: Vec<String> = Vec::new();
    while ip < 0x0208 {
        lines.push(disassemble_step(&mem, &mut ip).unwrap());
    }
    assert_eq!(
        lines,
        vec!["$0200 LDX #$00", "$0202 INX", "$0203 CPX #$10", "$0205 BNE $FB", "$0207 BRK"]
    );
    // the operand bytes of an instruction at the top of memory wrap
    mem.write_byte(0x0001, 0x05);
    mem.write_byte(0xFFFF, 0xAD);
    let mut top: u16 = 0xFFFF;
    assert_eq!(disassemble_step(&mem, &mut top), Ok("$FFFF LDA $052F".to_string()));
    assert_eq!(top, 0x0002);
}

#[test]
fn hexadecimal_addresses() {
    assert_eq!(parse_hex(b"FCE2"), Some(0xFCE2));
    assert_eq!(parse_hex(b"fce2"), Some(0xFCE2));
    assert_eq!(parse_hex(b"0"), Some(0));
    assert_eq!(parse_hex(b"10000"), Some(0));
    assert_eq!(parse_hex(b"12345"), Some(0x2345));
    assert_eq!(parse_hex(b"7FFFFFFFFFFFFFFF"), Some(0xFFFF));
    assert_eq!(parse_hex(b"00000000000000000801"), Some(0x0801));
    assert_eq!(parse_hex(b"8000000000000000"), None);
    assert_eq!(parse_hex(b"FFFFFFFFFFFFFFFFF"), None);
    assert_eq!(parse_hex(b""), None);
    assert_eq!(parse_hex(b"12G"), None);
    assert_eq!(parse_hex(b"$0801"), None);
    assert_eq!(parse_hex(b"-1"), None);
}

fn decode(name: Option<&str>, arg: Option<&str>) -> Command {
    decode_command(name.map(|n| n.as_bytes()), arg.map(|a| a.as_bytes()))
}

#[test]
fn monitor_commands() {
    assert_eq!(decode(None, None), Command::Step);
    assert_eq!(decode(Some("s"), None), Command::Step);
    assert_eq!(decode(Some("?"), None), Command::Help);
    assert_eq!(decode(Some("x"), None), Command::Exit);
    assert_eq!(decode(Some("g"), None), Command::Go);
    assert_eq!(decode(Some("r"), None), Command::Registers);
    assert_eq!(decode(Some("l"), None), Command::ListFiles);
    assert_eq!(decode(Some("l"), Some("game.prg")), Command::Load);
    assert_eq!(decode(Some("m"), Some("0400")), Command::Memory(0x0400));
    assert_eq!(decode(Some("p"), Some("fce2")), Command::SetPc(0xFCE2));
    assert_eq!(decode(Some("b"), Some("E5CD")), Command::SetBreakpoint(0xE5CD));
    assert_eq!(decode(Some("m"), None), Command::Nothing);
    assert_eq!(decode(Some("p"), None), Command::Nothing);
    assert_eq!(decode(Some("b"), None), Command::Nothing);
    assert_eq!(decode(Some("m"), Some("xyz")), Command::BadAddress);
    assert_eq!(decode(Some("q"), None), Command::Nothing);
    assert_eq!(decode(Some("go"), None), Command::Nothing);
    assert_eq!(decode(Some(""), None), Command::Nothing);
    assert_eq!(decode(Some("S"), None), Command::Nothing);
    assert_eq!(decode(Some("?"), Some("0400")), Command::Help);
}

#[test]
fn monitor_listing() {
    let mut mem = MemC64::new();
    mem.load_ram(&vec![0xA2, 0x00, 0xE8, 0x02, 0xEA], 0x0200);
    assert_eq!(
        list_instructions(&mem, 0x0200, 3),
        vec!["* $0200 LDX #$00", "  $0202 INX", "Error: Invalid opcode 02 (IP = 0203)!"]
    );
    assert_eq!(list_instructions(&mem, 0x0200, 2), vec!["* $0200 LDX #$00", "  $0202 INX"]);
    assert_eq!(
        list_instructions(&mem, 0x0200, 9),
        vec!["* $0200 LDX #$00", "  $0202 INX", "Error: Invalid opcode 02 (IP = 0203)!"]
    );
    assert_eq!(list_instructions(&mem, 0x0203, 3), vec!["Error: Invalid opcode 02 (IP = 0203)!"]);
    assert_eq!(list_instructions(&mem, 0x0204, 1), vec!["* $0204 NOP"]);
    assert!(list_instructions(&mem, 0x0200, 0).is_empty());
}
