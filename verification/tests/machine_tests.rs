use retroc64::cpu::Flags;
use retroc64::emu::{slice_open, wants_break, LoadError, C64, SCALE, SLICE_NANOS};
use retroc64::keyboard::{KEY_A, KEY_ESCAPE};
use retroc64::memc64::VicIO;
use retroc64::memory::MemIO;
use retroc64::vic::DrawCommand;

fn prg(load_addr: u16, body: &[u8]) -> Vec<u8> {
    let mut data: Vec<u8> = vec![(load_addr & 0xFF) as u8, (load_addr >> 8) as u8];
    data.extend_from_slice(body);
    data
}

#[test]
fn power_on_and_start() {
    let mut c64 = C64::new();
    assert_eq!(SCALE, 2);
    c64.start(0xFCE2);
    assert_eq!(c64.cpu.get_pc(), 0xFCE2);
    assert_eq!(c64.mem.vic_read_register(0xD018), 0x14);
    assert_eq!(c64.mem.vic_read_register(0xD016), 0x08);
    assert_eq!(c64.vic.curr_line(), 0);
}

#[test]
fn steps_run_the_cpu_and_the_vic() {
    let mut c64 = C64::new();
    c64.mem.load_ram(&vec![0xA9, 0x05, 0x69, 0x03, 0x02], 0x0200);
    c64.start(0x0200);
    let mut cycles: u8 = 0;
    let out = c64.run_step(&mut cycles);
    assert!(!out.stop);
    assert!(out.error.is_none());
    assert_eq!(cycles, 2);
    assert_eq!(c64.vic.curr_cycle(), 1);
    let out = c64.do_single_step(&mut cycles);
    assert!(!out.stop);
    assert_eq!(c64.cpu.get_a(), 8);
    assert_eq!(c64.vic.curr_cycle(), 1);
    let out = c64.run_step(&mut cycles);
    assert!(out.stop);
    assert_eq!(out.error, Some("Invalid opcode 02 (IP = 0204)!".to_string()));
    assert_eq!(c64.cpu.get_pc(), 0x0204);
    assert_eq!(c64.vic.curr_cycle(), 2);
}

#[test]
fn breakpoint_stops_the_run() {
    let mut c64 = C64::new();
    c64.mem.load_ram(&vec![0xEA, 0xEA, 0xEA], 0x0200);
    c64.start(0x0200);
    c64.cpu.set_breakpoint(0x0202);
    let mut cycles: u8 = 0;
    assert!(!c64.run_step(&mut cycles).stop);
    assert!(c64.run_step(&mut cycles).stop);
}

#[test]
fn frame_end_draws_and_interrupts() {
    let mut c64 = C64::new();
    c64.mem.load_rom(&vec![0x31, 0xEA], 0xFFFE);
    c64.start(0x0200);
    let cmds = c64.end_frame(vec![KEY_A]);
    assert_eq!(cmds[1], DrawCommand::Clear);
    assert_eq!(cmds[3], DrawCommand::FillRect { x: 64, y: 32, w: 640, h: 400 });
    assert_eq!(cmds[cmds.len() - 1], DrawCommand::Present);
    assert_eq!(c64.mem.read_byte(0xDC01), 0xFB);
    assert_eq!(c64.cpu.get_pc(), 0xEA31);
    assert!(c64.cpu.get_flag(Flags::Interrupt));
    assert_eq!(c64.mem.read_byte(0x01FF), 0x02);
    assert_eq!(c64.mem.read_byte(0x01FE), 0x00);
    // with interrupts disabled the next frame leaves the CPU alone
    let cmds = c64.end_frame(Vec::new());
    assert_eq!(cmds.len(), 4 + 3 * 1000 + 1);
    assert_eq!(c64.cpu.get_pc(), 0xEA31);
    assert_eq!(c64.cpu.get_sp(), 0xFC);
    assert_eq!(c64.mem.read_byte(0xDC01), 0xFF);
}

#[test]
fn escape_asks_for_the_monitor() {
    assert!(wants_break(&vec![KEY_A, KEY_ESCAPE]));
    assert!(!wants_break(&vec![KEY_A]));
    assert!(!wants_break(&Vec::new()));
}

#[test]
fn program_file_is_loaded_at_0801() {
    let mut c64 = C64::new();
    assert_eq!(c64.do_load(&prg(0x0801, &[0xAA, 0xBB, 0xCC])), Ok(3));
    assert_eq!(c64.mem.read_byte(0x0800), 0x00);
    assert_eq!(c64.mem.read_byte(0x0801), 0xAA);
    assert_eq!(c64.mem.read_byte(0x0802), 0xBB);
    assert_eq!(c64.mem.read_byte(0x0803), 0xCC);
    assert_eq!(c64.mem.read_byte(0x0804), 0x00);
    // one past the program: $0805 = 2053 = 8 * 255 + 13
    assert_eq!(c64.mem.read_byte(0x002D), 13);
    assert_eq!(c64.mem.read_byte(0x002E), 8);
    assert_eq!(c64.mem.read_byte(0x002F), 13);
    assert_eq!(c64.mem.read_byte(0x0030), 8);
}

#[test]
fn program_file_pointer_encoding() {
    let mut c64 = C64::new();
    // 0x0801 + 500 + 1 = 2550 = 10 * 255 + 0
    assert_eq!(c64.do_load(&prg(0x0801, &vec![0x01; 500])), Ok(500));
    assert_eq!(c64.mem.read_byte(0x002D), 0);
    assert_eq!(c64.mem.read_byte(0x002E), 10);
    // an empty program: 0x0802 = 2050 = 8 * 255 + 10
    assert_eq!(c64.do_load(&prg(0x0801, &[])), Ok(0));
    assert_eq!(c64.mem.read_byte(0x002F), 10);
    assert_eq!(c64.mem.read_byte(0x0030), 8);
    assert_eq!(c64.mem.read_byte(0x0801), 0x01);
    // the largest program ends at $FFFF; its end pointer wraps to $0001
    let n: usize = 0x10000 - 0x0801;
    assert_eq!(c64.do_load(&prg(0x0801, &vec![0x5A; n])), Ok(n));
    c64.mem.write_byte(0x0001, 0x00);
    assert_eq!(c64.mem.read_byte(0xFFFF), 0x5A);
    assert_eq!(c64.mem.read_byte(0x002D), 1);
    assert_eq!(c64.mem.read_byte(0x002E), 0);
    // a pointer whose quotient by 255 needs nine bits keeps the low eight:
    // 0x0801 + 63230 + 1 = 65280 = 256 * 255 + 0
    assert_eq!(c64.do_load(&prg(0x0801, &vec![0x5A; 63230])), Ok(63230));
    assert_eq!(c64.mem.read_byte(0x002D), 0);
    assert_eq!(c64.mem.read_byte(0x002E), 0);
    // 0x0801 + 63484 + 1 = 65534 = 256 * 255 + 254
    assert_eq!(c64.do_load(&prg(0x0801, &vec![0x5A; 63484])), Ok(63484));
    assert_eq!(c64.mem.read_byte(0x002D), 254);
    assert_eq!(c64.mem.read_byte(0x002E), 0);
}

#[test]
fn program_file_for_another_address_is_rejected() {
    let mut c64 = C64::new();
    c64.mem.write_byte(0x0801, 0x77);
    assert_eq!(
        c64.do_load(&prg(0xC000, &[0xAA])),
        Err(LoadError::WrongTarget { lo: 0x00, hi: 0xC0 })
    );
    assert_eq!(
        c64.do_load(&prg(0x0802, &[0xAA])),
        Err(LoadError::WrongTarget { lo: 0x02, hi: 0x08 })
    );
    assert_eq!(c64.do_load(&vec![0x01]), Err(LoadError::NoLoadAddress));
    assert_eq!(c64.do_load(&Vec::new()), Err(LoadError::NoLoadAddress));
    assert_eq!(
        c64.do_load(&prg(0x0801, &vec![0; 0x10000 - 0x0801 + 1])),
        Err(LoadError::TooLarge)
    );
    assert_eq!(c64.mem.read_byte(0x0801), 0x77);
    assert_eq!(c64.mem.read_byte(0x002D), 0);
    assert_eq!(c64.mem.read_byte(0x002E), 0);
}

#[test]
fn time_slice_is_fifteen_milliseconds() {
    assert_eq!(SLICE_NANOS, 15_000_000);
    assert!(slice_open(0, 0));
    assert!(slice_open(0, 14_999_999));
    assert!(!slice_open(0, 15_000_000));
    assert!(slice_open(1_000, 15_000_999));
    assert!(!slice_open(1_000, 15_001_000));
    // the counter wraps
    assert!(slice_open(u64::MAX - 5, 10));
    assert!(!slice_open(u64::MAX, 15_000_000));
    // a counter that was set back leaves the slice open
    assert!(slice_open(100, 50));
    assert!(slice_open(0, 1 << 63));
    assert!(!slice_open(0, (1 << 63) - 1));
}

#[test]
fn slice_runs_steps_until_one_stops() {
    let mut c64 = C64::new();
    c64.mem.load_ram(&vec![0xEA, 0xEA, 0x02], 0x0200);
    c64.start(0x0200);
    let out = c64.run_slice(10);
    assert!(out.steps <= 3);
    if out.steps == 3 {
        assert!(out.stop);
        assert_eq!(out.error, Some("Invalid opcode 02 (IP = 0202)!".to_string()));
    } else {
        assert!(!out.stop);
        assert!(out.error.is_none());
    }
    assert_eq!(c64.cpu.get_pc(), 0x0200 + if out.steps < 3 { out.steps as u16 } else { 2 });
    assert_eq!(c64.vic.curr_cycle() as u32, out.steps);
}

#[test]
fn slice_leaves_the_machine_as_its_steps_do() {
    let program: Vec<u8> = vec![0xE8, 0x8E, 0x00, 0x04, 0x4C, 0x00, 0x02];
    let mut c64 = C64::new();
    c64.mem.load_ram(&program, 0x0200);
    c64.start(0x0200);
    let mut twin = C64::new();
    twin.mem.load_ram(&program, 0x0200);
    twin.start(0x0200);

    let out = c64.run_slice(1000);
    assert!(out.steps <= 1000);
    assert!(!out.stop);
    assert!(out.error.is_none());
    for _ in 0..out.steps {
        let mut cycles: u8 = 0;
        assert!(!twin.run_step(&mut cycles).stop);
    }
    assert_eq!(c64.cpu.get_pc(), twin.cpu.get_pc());
    assert_eq!(c64.cpu.get_x(), twin.cpu.get_x());
    assert_eq!(c64.cpu.get_status(), twin.cpu.get_status());
    assert_eq!(c64.mem.read_byte(0x0400), twin.mem.read_byte(0x0400));
    assert_eq!(c64.vic.curr_cycle(), twin.vic.curr_cycle());
    assert_eq!(c64.vic.curr_line(), twin.vic.curr_line());
    assert_eq!(c64.vic.curr_cycle() as u32, out.steps % 65);
    assert_eq!(c64.vic.curr_line() as u32, (out.steps / 65) % 263);

    let none = c64.run_slice(0);
    assert_eq!(none.steps, 0);
    assert!(!none.stop);
    assert_eq!(c64.cpu.get_pc(), twin.cpu.get_pc());
}

#[test]
fn slice_stops_at_a_breakpoint() {
    let mut c64 = C64::new();
    c64.mem.load_ram(&vec![0xEA, 0xEA, 0xEA, 0xEA], 0x0200);
    c64.start(0x0200);
    c64.cpu.set_breakpoint(0x0202);
    let out = c64.run_slice(100);
    assert!(out.steps <= 2);
    assert_eq!(out.stop, out.steps == 2);
    assert!(out.error.is_none());
    assert_eq!(c64.cpu.get_pc(), 0x0200 + out.steps as u16);
}
