use retroc64::keyboard::{
    kbd_scancode, key_position, KEY_A, KEY_BACKSPACE, KEY_ESCAPE, KEY_PAUSE, KEY_Q, KEY_RETURN,
    KEY_SPACE,
};
use retroc64::memc64::{CiaIO, MemC64, VicIO};
use retroc64::memory::MemIO;
use retroc64::utils::{gutter_char, hexdump};

/// A bus with a different mark in ROM, RAM and the I/O page at each of
/// $A000, $D000 and $E000.
fn marked_bus() -> MemC64 {
    let mut mem = MemC64::new();
    mem.load_rom(&vec![0xB1], 0xA000);
    mem.load_rom(&vec![0xC1], 0xD000);
    mem.load_rom(&vec![0xE1], 0xE000);
    mem.load_ram(&vec![0xB2], 0xA000);
    mem.load_ram(&vec![0xC2], 0xD000);
    mem.load_ram(&vec![0xE2], 0xE000);
    mem.write_register(0xD000, 0xC3);
    mem
}

#[test]
fn power_on_values() {
    let mem = MemC64::new();
    assert_eq!(mem.read_byte(0x0000), 0b101111);
    assert_eq!(mem.read_byte(0x0001), 0b111);
    assert_eq!(mem.read_byte(0x0002), 0);
    assert_eq!(mem.read_byte(0xFFFF), 0);
    assert_eq!(mem.read_register(0xDC01), 0xFF);
}

#[test]
fn overlay_for_every_port_setting() {
    for port in 0u8..8 {
        let mut mem = marked_bus();
        mem.write_byte(0x0001, port);
        assert_eq!(mem.read_byte(0x0001), port);
        let loram: bool = port & 1 != 0;
        let hiram: bool = port & 2 != 0;
        let charen: bool = port & 4 != 0;
        assert_eq!(mem.read_byte(0xA000), if loram { 0xB1 } else { 0xB2 });
        assert_eq!(mem.read_byte(0xD000), if charen { 0xC3 } else { 0xC1 });
        assert_eq!(mem.read_byte(0xE000), if hiram { 0xE1 } else { 0xE2 });
        assert_eq!(mem.read_byte(0x9FFF), 0);
        assert_eq!(mem.read_byte(0xC000), 0);
    }
}

#[test]
fn overlay_follows_the_port() {
    let mut mem = marked_bus();
    mem.write_byte(0x0001, 0x07);
    assert_eq!(mem.read_byte(0xE000), 0xE1);
    mem.write_byte(0x0001, 0x05);
    assert_eq!(mem.read_byte(0xE000), 0xE2);
    mem.write_byte(0x0001, 0x03);
    assert_eq!(mem.read_byte(0xD000), 0xC1);
}

#[test]
fn writes_land_in_ram_or_the_io_page() {
    let mut mem = marked_bus();
    mem.write_byte(0xA000, 0x11);
    mem.write_byte(0xE000, 0x12);
    assert_eq!(mem.read_byte(0xA000), 0xB1);
    assert_eq!(mem.read_byte(0xE000), 0xE1);
    mem.write_byte(0xD020, 0x0E);
    assert_eq!(mem.read_register(0xD020), 0x0E);
    mem.write_byte(0x0001, 0x00);
    assert_eq!(mem.read_byte(0xA000), 0x11);
    assert_eq!(mem.read_byte(0xE000), 0x12);
    assert_eq!(mem.read_byte(0xD020), 0x00);
    mem.write_byte(0xD020, 0x55);
    assert_eq!(mem.read_register(0xD020), 0x0E);
    mem.write_byte(0x0001, 0x04);
    assert_eq!(mem.read_byte(0xD020), 0x0E);
    mem.write_byte(0x0001, 0x00);
    assert_eq!(mem.read_byte(0xD020), 0x00);
    mem.write_byte(0x0000, 0x77);
    assert_eq!(mem.read_byte(0x0000), 0x77);
}

#[test]
fn words_are_little_endian_and_wrap() {
    let mut mem = MemC64::new();
    mem.write_byte(0x0001, 0x00);
    mem.write_byte(0x1000, 0x34);
    mem.write_byte(0x1001, 0x12);
    assert_eq!(mem.read_word(0x1000), 0x1234);
    mem.write_byte(0xFFFF, 0xCD);
    mem.write_byte(0x0000, 0xAB);
    assert_eq!(mem.read_word(0xFFFF), 0xABCD);
}

#[test]
fn bulk_loads() {
    let mut mem = MemC64::new();
    mem.load_ram(&vec![1, 2, 3], 0xFFFD);
    mem.write_byte(0x0001, 0x00);
    assert_eq!(mem.read_byte(0xFFFC), 0);
    assert_eq!(mem.read_byte(0xFFFD), 1);
    assert_eq!(mem.read_byte(0xFFFE), 2);
    assert_eq!(mem.read_byte(0xFFFF), 3);
    mem.load_rom(&vec![9, 8], 0xBFFF);
    mem.write_byte(0x0001, 0x07);
    assert_eq!(mem.read_byte(0xBFFF), 9);
    assert_eq!(mem.read_byte(0xC000), 0);
    mem.load_rom(&Vec::new(), 0xFFFF);
    assert_eq!(mem.read_byte(0xFFFF), 0);
    mem.check_wf();
}

#[test]
fn vic_bank_selection() {
    for bits in 0u8..4 {
        let mut mem = MemC64::new();
        let bank: usize = 3 - bits as usize;
        for b in 0u8..4 {
            mem.load_ram(&vec![0x10 + b], (b as u16) * 0x4000 + 0x0123);
            mem.load_ram(&vec![0x20 + b], (b as u16) * 0x4000 + 0x1234);
            mem.load_ram(&vec![0x30 + b], (b as u16) * 0x4000 + 0x3FFF);
        }
        mem.load_rom(&vec![0x99], 0xD234);
        mem.cia_write_register(0xDD00, 0xFC | bits);
        assert_eq!(mem.cia_read_register(0xDD00), 0xFC | bits);
        assert_eq!(mem.vic_read_byte(0x0123), 0x10 + bank as u8);
        assert_eq!(mem.vic_read_byte(0x3FFF), 0x30 + bank as u8);
        if bank == 0 || bank == 2 {
            assert_eq!(mem.vic_read_byte(0x1234), 0x99);
        } else {
            assert_eq!(mem.vic_read_byte(0x1234), 0x20 + bank as u8);
        }
        // the video matrix is always read from RAM
        assert_eq!(mem.vic_read_vm(0x1234).0, 0x20 + bank as u8);
    }
}

#[test]
fn video_matrix_pairs_with_colour_ram() {
    let mut mem = MemC64::new();
    mem.cia_write_register(0xDD00, 0x03);
    mem.load_ram(&vec![0x41, 0x42], 0x0400);
    mem.write_register(0xD800, 0xF7);
    mem.write_register(0xD801, 0x1E);
    assert_eq!(mem.vic_read_vm(0x0400), (0x41, 0x07));
    assert_eq!(mem.vic_read_vm(0x0401), (0x42, 0x0E));
    assert_eq!(mem.vic_read_vm(0x0801).1, 0x0E);
}

#[test]
fn vic_registers() {
    let mut mem = MemC64::new();
    mem.vic_write_register(0xD02E, 0x5A);
    assert_eq!(mem.vic_read_register(0xD02E), 0x5A);
    assert_eq!(mem.read_byte(0xD02E), 0x5A);
    mem.vic_write_register(0xD000, 0x01);
    assert_eq!(mem.vic_read_register(0xD000), 0x01);
}

#[test]
fn no_key_scans_as_ff_for_every_mask() {
    let keys: Vec<i32> = Vec::new();
    for mask in 0u16..=255 {
        assert_eq!(kbd_scancode(&keys, mask as u8), 0xFF);
    }
}

#[test]
fn keys_scan_in_selected_rows() {
    // A sits in row 1, column 2
    assert_eq!(key_position(KEY_A), Some((1, 2)));
    assert_eq!(key_position(KEY_BACKSPACE), Some((0, 0)));
    assert_eq!(key_position(KEY_PAUSE), Some((7, 7)));
    assert_eq!(key_position(KEY_ESCAPE), None);
    assert_eq!(key_position(-1), None);
    assert_eq!(kbd_scancode(&vec![KEY_A], 0x02), 0xFB);
    assert_eq!(kbd_scancode(&vec![KEY_A], 0xFF), 0xFB);
    assert_eq!(kbd_scancode(&vec![KEY_A], 0xFD), 0xFF);
    assert_eq!(kbd_scancode(&vec![KEY_A], 0x00), 0xFF);
    assert_eq!(kbd_scancode(&vec![KEY_ESCAPE], 0xFF), 0xFF);
    // Return: row 0, column 1; Space: row 7, column 4; Q: row 7, column 6
    assert_eq!(kbd_scancode(&vec![KEY_RETURN, KEY_SPACE, KEY_Q], 0xFF), 0xAD);
    assert_eq!(kbd_scancode(&vec![KEY_RETURN, KEY_SPACE, KEY_Q], 0x80), 0xAF);
    assert_eq!(kbd_scancode(&vec![KEY_RETURN, KEY_SPACE, KEY_Q], 0x01), 0xFD);
    assert_eq!(kbd_scancode(&vec![KEY_A, KEY_A], 0x02), 0xFB);
}

#[test]
fn keyboard_register_scans_the_rows_that_dc00_selects() {
    let mut mem = MemC64::new();
    mem.refresh(vec![KEY_A]);
    // power-on: $DC00 is 0, which selects every row
    assert_eq!(mem.read_byte(0xDC01), 0xFB);
    mem.write_byte(0xDC00, 0xFD);
    assert_eq!(mem.read_byte(0xDC01), 0xFB);
    assert_eq!(mem.cia_read_register(0xDC01), 0xFB);
    mem.write_byte(0xDC00, 0xFE);
    assert_eq!(mem.read_byte(0xDC01), 0xFF);
    mem.refresh(Vec::new());
    mem.write_byte(0xDC00, 0x00);
    assert_eq!(mem.read_byte(0xDC01), 0xFF);
    // a write to $DC01 is kept but not read back
    mem.write_byte(0xDC01, 0x12);
    assert_eq!(mem.read_byte(0xDC01), 0xFF);
    assert_eq!(mem.read_byte(0xDC00), 0x00);
}

#[test]
fn dump_line() {
    let buf: Vec<u8> = vec![0x41, 0x00, 0x7A, 0x39];
    assert_eq!(hexdump(&buf, 0, 4), "0000: 41 00 7A 39  A.z9");
    assert_eq!(hexdump(&buf, 2, 4), format!("0002: 7A 39 {}{} z9..", "   ", "   "));
    assert_eq!(hexdump(&buf, 0, 0), "0000:  ");
    assert_eq!(hexdump(&buf, 0x12345, 1), format!("12345: {} .", "   "));
    assert_eq!(hexdump(&buf, 0xABCDE0, 0), "ABCDE0:  ");
    assert_eq!(hexdump(&vec![0x20, 0x2E, 0x5F, 0xE9, 0xFF], 0, 5), "0000: 20 2E 5F E9 FF  ...\u{e9}\u{ff}");
}

#[test]
fn gutter_characters() {
    assert_eq!(gutter_char(0x41, true), 'A');
    assert_eq!(gutter_char(0x41, false), '.');
    assert_eq!(gutter_char(0xE9, true), '\u{e9}');
}

#[test]
fn memory_dump_reads_through_the_overlay() {
    let mut mem = MemC64::new();
    mem.load_ram(&vec![0x48, 0x49, 0x21], 0x0400);
    assert_eq!(mem.memdump(0x0400, 4), "0000: 48 49 21 00  HI..");
    mem.load_rom(&vec![0x4B], 0xE000);
    mem.load_ram(&vec![0x52], 0xE000);
    assert_eq!(mem.memdump(0xE000, 1), "0000: 4B  K");
    mem.write_byte(0x0001, 0x05);
    assert_eq!(mem.memdump(0xE000, 1), "0000: 52  R");
    // addresses wrap at 64 KiB
    mem.write_byte(0xFFFF, 0x5A);
    assert_eq!(mem.memdump(0xFFFF, 2), "0000: 5A 2F  Z.");
    assert_eq!(mem.memdump(0x1FFFF, 1), "0000: 5A  Z");
}
