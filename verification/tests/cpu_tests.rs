use retroc64::cpu::{Flags, Operand, CPU};
use retroc64::memc64::MemC64;
use retroc64::memory::MemIO;
use retroc64::opcodes::{get_opcode, Mnemonic, Mode};

fn machine(program: &[u8], at: u16) -> (CPU, MemC64) {
    let mut mem = MemC64::new();
    mem.load_ram(&program.to_vec(), at);
    let mut cpu = CPU::new();
    cpu.set_pc(at);
    (cpu, mem)
}

fn step(cpu: &mut CPU, mem: &mut MemC64) -> (bool, u8) {
    let mut cycles: u8 = 0;
    let hit = cpu.single_step(mem, &mut cycles).unwrap();
    (hit, cycles)
}

fn transfers_control(name: Mnemonic) -> bool {
    matches!(
        name,
        Mnemonic::Bcc
            | Mnemonic::Bcs
            | Mnemonic::Beq
            | Mnemonic::Bmi
            | Mnemonic::Bne
            | Mnemonic::Bpl
            | Mnemonic::Bvc
            | Mnemonic::Bvs
            | Mnemonic::Brk
            | Mnemonic::Jmp
            | Mnemonic::Jsr
            | Mnemonic::Rti
            | Mnemonic::Rts
    )
}

#[test]
fn reset_state() {
    let mut cpu = CPU::new();
    assert_eq!(cpu.get_pc(), 0);
    assert_eq!(cpu.get_a(), 0);
    assert_eq!(cpu.get_x(), 0);
    assert_eq!(cpu.get_y(), 0);
    assert_eq!(cpu.get_sp(), 0xFF);
    assert_eq!(cpu.get_status(), 0x20);
}

#[test]
fn load_then_add_immediate() {
    let (mut cpu, mut mem) = machine(&[0xA9, 0x05, 0x69, 0x03, 0x00], 0x0200);
    cpu.set_flag(Flags::Carry, false);
    let (_, c1) = step(&mut cpu, &mut mem);
    let (_, c2) = step(&mut cpu, &mut mem);
    assert_eq!(c1, 2);
    assert_eq!(c2, 2);
    assert_eq!(cpu.get_a(), 0x08);
    assert!(!cpu.get_flag(Flags::Carry));
    assert!(!cpu.get_flag(Flags::Zero));
    assert!(!cpu.get_flag(Flags::Sign));
    assert!(!cpu.get_flag(Flags::Overflow));
    assert_eq!(cpu.get_pc(), 0x0204);
}

#[test]
fn count_x_to_sixteen() {
    let (mut cpu, mut mem) = machine(&[0xA2, 0x00, 0xE8, 0xE0, 0x10, 0xD0, 0xFB, 0x00], 0x0200);
    let mut steps: u32 = 0;
    while cpu.get_pc() != 0x0207 {
        step(&mut cpu, &mut mem);
        steps += 1;
        assert!(steps < 1000);
    }
    assert_eq!(mem.read_byte(0x0207), 0x00);
    assert_eq!(cpu.get_x(), 0x10);
    assert!(cpu.get_flag(Flags::Zero));
    assert_eq!(steps, 1 + 16 * 3);
}

#[test]
fn push_two_pull_two() {
    let (mut cpu, mut mem) =
        machine(&[0xA9, 0x12, 0x48, 0xA9, 0x34, 0x48, 0x68, 0x68], 0x0200);
    let sp0: u8 = cpu.get_sp();
    for _ in 0..4 {
        step(&mut cpu, &mut mem);
    }
    assert_eq!(cpu.get_sp(), sp0.wrapping_sub(2));
    assert_eq!(mem.read_byte(0x01FF), 0x12);
    assert_eq!(mem.read_byte(0x01FE), 0x34);
    cpu.do_lda(0);
    let (_, cycles) = step(&mut cpu, &mut mem);
    assert_eq!(cycles, 4);
    assert_eq!(cpu.get_a(), 0x34);
    step(&mut cpu, &mut mem);
    assert_eq!(cpu.get_a(), 0x12);
    assert_eq!(cpu.get_sp(), sp0);
}

#[test]
fn jsr_then_rts() {
    let (mut cpu, mut mem) = machine(&[0x20, 0x34, 0x12], 0x0200);
    mem.write_byte(0x1234, 0x60);
    assert_eq!(cpu.get_sp(), 0xFF);
    let (_, cycles) = step(&mut cpu, &mut mem);
    assert_eq!(cycles, 6);
    assert_eq!(mem.read_byte(0x01FE), 0x02);
    assert_eq!(mem.read_byte(0x01FF), 0x02);
    assert_eq!(cpu.get_pc(), 0x1234);
    assert_eq!(cpu.get_sp(), 0xFD);
    step(&mut cpu, &mut mem);
    assert_eq!(cpu.get_pc(), 0x0203);
    assert_eq!(cpu.get_sp(), 0xFF);
}

#[test]
fn every_opcode_declares_length_and_cycles() {
    let mut documented: u32 = 0;
    for b in 0u16..=255 {
        let b: u8 = b as u8;
        let (mut cpu, mut mem) = machine(&[b, 0x00, 0x00], 0x0200);
        let mut cycles: u8 = 0;
        let r = cpu.single_step(&mut mem, &mut cycles);
        match get_opcode(b) {
            Some(op) => {
                documented += 1;
                assert_eq!(op.code, b);
                assert!(r.is_ok());
                assert_eq!(cycles, op.cycles);
                assert!((2..=7).contains(&cycles));
                assert!((1..=3).contains(&op.bytes));
                assert_eq!(op.bytes, op.mode.length());
                if !transfers_control(op.name) {
                    assert_eq!(cpu.get_pc(), 0x0200 + op.bytes as u16);
                }
            }
            None => {
                assert_eq!(r, Err(format!("Invalid opcode {:02X} (IP = 0200)!", b)));
                assert_eq!(cycles, 0);
                assert_eq!(cpu.get_pc(), 0x0200);
            }
        }
    }
    assert_eq!(documented, 151);
}

#[test]
fn opcode_table_entries() {
    let lda = get_opcode(0xA9).unwrap();
    assert_eq!(lda.name, Mnemonic::Lda);
    assert_eq!(lda.mode, Mode::Immediate);
    assert_eq!((lda.bytes, lda.cycles), (2, 2));
    let brk = get_opcode(0x00).unwrap();
    assert_eq!((brk.name, brk.mode, brk.bytes, brk.cycles), (Mnemonic::Brk, Mode::Implied, 1, 7));
    let jmp = get_opcode(0x6C).unwrap();
    assert_eq!((jmp.name, jmp.mode, jmp.bytes, jmp.cycles), (Mnemonic::Jmp, Mode::Indirect, 3, 5));
    let sta = get_opcode(0x91).unwrap();
    assert_eq!((sta.name, sta.mode, sta.bytes, sta.cycles), (Mnemonic::Sta, Mode::IndirectY, 2, 6));
    let ldx = get_opcode(0xB6).unwrap();
    assert_eq!((ldx.name, ldx.mode, ldx.bytes, ldx.cycles), (Mnemonic::Ldx, Mode::ZeroPageY, 2, 4));
    let asl = get_opcode(0x1E).unwrap();
    assert_eq!((asl.name, asl.mode, asl.bytes, asl.cycles), (Mnemonic::Asl, Mode::AbsoluteX, 3, 7));
    assert!(get_opcode(0x02).is_none());
    assert!(get_opcode(0xFF).is_none());
    assert_eq!(Mnemonic::Adc.name(), "ADC");
    assert_eq!(Mnemonic::Tya.name(), "TYA");
}

#[test]
fn invalid_opcode_changes_nothing() {
    let (mut cpu, mut mem) = machine(&[0x02], 0xC123);
    cpu.do_lda(0x55);
    let st: u8 = cpu.get_status();
    let mut cycles: u8 = 9;
    let r = cpu.single_step(&mut mem, &mut cycles);
    assert_eq!(r, Err("Invalid opcode 02 (IP = C123)!".to_string()));
    assert_eq!(cycles, 9);
    assert_eq!(cpu.get_pc(), 0xC123);
    assert_eq!(cpu.get_a(), 0x55);
    assert_eq!(cpu.get_status(), st);
}

#[test]
fn php_then_plp_forces_break_and_bit5() {
    for bits in 0u16..=255 {
        let st: u8 = (bits as u8) | 0x20;
        let mut cpu = CPU::new();
        let mut mem = MemC64::new();
        cpu.set_flag(Flags::Carry, st & 0x01 != 0);
        cpu.set_flag(Flags::Zero, st & 0x02 != 0);
        cpu.set_flag(Flags::Interrupt, st & 0x04 != 0);
        cpu.set_flag(Flags::Decimal, st & 0x08 != 0);
        cpu.set_flag(Flags::Break, st & 0x10 != 0);
        cpu.set_flag(Flags::Overflow, st & 0x40 != 0);
        cpu.set_flag(Flags::Sign, st & 0x80 != 0);
        assert_eq!(cpu.get_status(), st);
        cpu.do_php(&mut mem);
        assert_eq!(mem.read_byte(0x01FF), st | 0x30);
        cpu.do_lda(0);
        cpu.do_plp(&mem);
        assert_eq!(cpu.get_status(), st | 0x30);
        if st & 0x10 != 0 {
            assert_eq!(cpu.get_status(), st | 0x20);
        }
        assert_eq!(cpu.get_sp(), 0xFF);
    }
}

#[test]
fn php_then_plp_sets_break_on_a_clear_status() {
    let mut cpu = CPU::new();
    let mut mem = MemC64::new();
    assert_eq!(cpu.get_status(), 0x20);
    cpu.do_php(&mut mem);
    cpu.do_plp(&mem);
    assert_eq!(cpu.get_status(), 0x30);
}

#[test]
fn pha_then_pla_keeps_a() {
    for a in [0x00u8, 0x01, 0x7F, 0x80, 0xFF] {
        let mut cpu = CPU::new();
        let mut mem = MemC64::new();
        cpu.do_ldx(0x40);
        cpu.do_lda(a);
        cpu.do_ldx(if a == 0 { 1 } else { 0 });
        cpu.do_pha(&mut mem);
        cpu.do_pla(&mem);
        assert_eq!(cpu.get_a(), a);
        assert_eq!(cpu.get_flag(Flags::Zero), a == 0);
        assert_eq!(cpu.get_flag(Flags::Sign), a > 127);
        assert_eq!(cpu.get_sp(), 0xFF);
    }
}

#[test]
fn adc_then_sbc_for_every_input() {
    for a in 0u16..=255 {
        for m in 0u16..=255 {
            for c in 0u16..=1 {
                let mut cpu = CPU::new();
                cpu.do_lda(a as u8);
                cpu.set_flag(Flags::Carry, c == 1);
                cpu.do_adc(m as u8);
                let carry_out: u16 = if a + m + c > 0xFF { 1 } else { 0 };
                assert_eq!(cpu.get_flag(Flags::Carry), carry_out == 1);
                assert_eq!(cpu.get_a(), ((a + m + c) & 0xFF) as u8);
                cpu.do_sbc(m as u8);
                assert_eq!(cpu.get_a(), ((a + c + carry_out + 255) & 0xFF) as u8);
                if c != carry_out {
                    assert_eq!(cpu.get_a(), a as u8);
                }
            }
        }
    }
}

#[test]
fn adc_then_sbc_without_carry_loses_one() {
    let mut cpu = CPU::new();
    cpu.do_lda(5);
    cpu.do_clc();
    cpu.do_adc(0);
    assert_eq!(cpu.get_a(), 5);
    assert!(!cpu.get_flag(Flags::Carry));
    cpu.do_sbc(0);
    assert_eq!(cpu.get_a(), 4);
}

#[test]
fn adc_binary_flags() {
    let mut cpu = CPU::new();
    cpu.do_lda(0x50);
    cpu.do_adc(0x50);
    assert_eq!(cpu.get_a(), 0xA0);
    assert!(cpu.get_flag(Flags::Overflow));
    assert!(cpu.get_flag(Flags::Sign));
    assert!(!cpu.get_flag(Flags::Carry));
    assert!(!cpu.get_flag(Flags::Zero));

    cpu.do_lda(0xFF);
    cpu.do_clc();
    cpu.do_adc(0x01);
    assert_eq!(cpu.get_a(), 0x00);
    assert!(cpu.get_flag(Flags::Carry));
    assert!(cpu.get_flag(Flags::Zero));
    assert!(!cpu.get_flag(Flags::Overflow));
    assert!(!cpu.get_flag(Flags::Sign));

    cpu.do_lda(0x80);
    cpu.do_clc();
    cpu.do_adc(0x80);
    assert_eq!(cpu.get_a(), 0x00);
    assert!(cpu.get_flag(Flags::Carry));
    assert!(cpu.get_flag(Flags::Overflow));
}

#[test]
fn sbc_binary_flags() {
    let mut cpu = CPU::new();
    cpu.do_lda(0x50);
    cpu.do_sec();
    cpu.do_sbc(0xF0);
    assert_eq!(cpu.get_a(), 0x60);
    assert!(!cpu.get_flag(Flags::Carry));
    assert!(!cpu.get_flag(Flags::Overflow));

    cpu.do_lda(0x50);
    cpu.do_sec();
    cpu.do_sbc(0xB0);
    assert_eq!(cpu.get_a(), 0xA0);
    assert!(!cpu.get_flag(Flags::Carry));
    assert!(cpu.get_flag(Flags::Overflow));
    assert!(cpu.get_flag(Flags::Sign));

    cpu.do_lda(0x05);
    cpu.do_sec();
    cpu.do_sbc(0x05);
    assert_eq!(cpu.get_a(), 0x00);
    assert!(cpu.get_flag(Flags::Carry));
    assert!(cpu.get_flag(Flags::Zero));
}

#[test]
fn adc_decimal() {
    let mut cpu = CPU::new();
    cpu.do_sed();
    cpu.do_lda(0x15);
    cpu.do_clc();
    cpu.do_adc(0x27);
    assert_eq!(cpu.get_a(), 0x42);
    assert!(!cpu.get_flag(Flags::Carry));

    cpu.do_lda(0x99);
    cpu.do_clc();
    cpu.do_adc(0x01);
    assert_eq!(cpu.get_a(), 0x00);
    assert!(cpu.get_flag(Flags::Carry));
    assert!(!cpu.get_flag(Flags::Zero));
    assert!(cpu.get_flag(Flags::Sign));

    cpu.do_lda(0x58);
    cpu.do_sec();
    cpu.do_adc(0x46);
    assert_eq!(cpu.get_a(), 0x05);
    assert!(cpu.get_flag(Flags::Carry));
}

#[test]
fn sbc_decimal() {
    let mut cpu = CPU::new();
    cpu.do_sed();
    cpu.do_lda(0x42);
    cpu.do_sec();
    cpu.do_sbc(0x27);
    assert_eq!(cpu.get_a(), 0x15);
    assert!(cpu.get_flag(Flags::Carry));

    cpu.do_lda(0x10);
    cpu.do_sec();
    cpu.do_sbc(0x20);
    assert_eq!(cpu.get_a(), 0x90);
    assert!(!cpu.get_flag(Flags::Carry));
}

#[test]
fn comparisons() {
    let mut cpu = CPU::new();
    cpu.do_lda(5);
    cpu.do_cmp(5);
    assert!(cpu.get_flag(Flags::Carry));
    assert!(cpu.get_flag(Flags::Zero));
    assert!(!cpu.get_flag(Flags::Sign));
    cpu.do_cmp(6);
    assert!(!cpu.get_flag(Flags::Carry));
    assert!(!cpu.get_flag(Flags::Zero));
    assert!(cpu.get_flag(Flags::Sign));
    assert_eq!(cpu.get_a(), 5);
    cpu.do_ldx(0x80);
    cpu.do_cpx(0x01);
    assert!(cpu.get_flag(Flags::Carry));
    assert!(!cpu.get_flag(Flags::Sign));
    cpu.do_ldy(0x00);
    cpu.do_cpy(0xFF);
    assert!(!cpu.get_flag(Flags::Carry));
    assert!(!cpu.get_flag(Flags::Zero));
    assert!(!cpu.get_flag(Flags::Sign));
}

#[test]
fn logic_and_bit_test() {
    let mut cpu = CPU::new();
    cpu.do_lda(0xF0);
    cpu.do_and(0x3C);
    assert_eq!(cpu.get_a(), 0x30);
    cpu.do_ora(0x81);
    assert_eq!(cpu.get_a(), 0xB1);
    assert!(cpu.get_flag(Flags::Sign));
    cpu.do_eor(0xB1);
    assert_eq!(cpu.get_a(), 0x00);
    assert!(cpu.get_flag(Flags::Zero));

    cpu.do_lda(0x0F);
    cpu.do_bit(0xC0);
    assert!(cpu.get_flag(Flags::Sign));
    assert!(cpu.get_flag(Flags::Overflow));
    assert!(cpu.get_flag(Flags::Zero));
    assert_eq!(cpu.get_a(), 0x0F);
    cpu.do_bit(0x01);
    assert!(!cpu.get_flag(Flags::Sign));
    assert!(!cpu.get_flag(Flags::Overflow));
    assert!(!cpu.get_flag(Flags::Zero));
}

#[test]
fn shifts_and_rotates_on_a() {
    let mut cpu = CPU::new();
    let mut mem = MemC64::new();
    cpu.do_lda(0x81);
    cpu.do_asl(&mut mem, Operand::Accumulator);
    assert_eq!(cpu.get_a(), 0x02);
    assert!(cpu.get_flag(Flags::Carry));

    cpu.do_lda(0x80);
    cpu.do_sec();
    cpu.do_rol(&mut mem, Operand::Accumulator);
    assert_eq!(cpu.get_a(), 0x01);
    assert!(cpu.get_flag(Flags::Carry));

    cpu.do_lda(0x01);
    cpu.do_clc();
    cpu.do_ror(&mut mem, Operand::Accumulator);
    assert_eq!(cpu.get_a(), 0x00);
    assert!(cpu.get_flag(Flags::Carry));
    assert!(cpu.get_flag(Flags::Zero));

    cpu.do_ror(&mut mem, Operand::Accumulator);
    assert_eq!(cpu.get_a(), 0x80);
    assert!(!cpu.get_flag(Flags::Carry));
    assert!(cpu.get_flag(Flags::Sign));

    cpu.do_lda(0x03);
    cpu.do_lsr(&mut mem, Operand::Accumulator);
    assert_eq!(cpu.get_a(), 0x01);
    assert!(cpu.get_flag(Flags::Carry));
    assert!(!cpu.get_flag(Flags::Sign));
}

#[test]
fn shifts_on_memory_write_back() {
    let mut cpu = CPU::new();
    let mut mem = MemC64::new();
    mem.write_byte(0x0010, 0x41);
    cpu.do_lda(0x77);
    cpu.do_asl(&mut mem, Operand::Address(0x0010));
    assert_eq!(mem.read_byte(0x0010), 0x82);
    assert_eq!(cpu.get_a(), 0x77);
    assert!(!cpu.get_flag(Flags::Carry));
    assert!(cpu.get_flag(Flags::Sign));
    cpu.do_lsr(&mut mem, Operand::Address(0x0010));
    assert_eq!(mem.read_byte(0x0010), 0x41);
    cpu.do_sec();
    cpu.do_ror(&mut mem, Operand::Address(0x0010));
    assert_eq!(mem.read_byte(0x0010), 0xA0);
    assert!(cpu.get_flag(Flags::Carry));
    cpu.do_rol(&mut mem, Operand::Address(0x0010));
    assert_eq!(mem.read_byte(0x0010), 0x41);
    assert!(cpu.get_flag(Flags::Carry));
}

#[test]
fn increments_and_decrements() {
    let mut cpu = CPU::new();
    let mut mem = MemC64::new();
    cpu.do_ldx(0xFF);
    cpu.do_inx();
    assert_eq!(cpu.get_x(), 0);
    assert!(cpu.get_flag(Flags::Zero));
    cpu.do_dex();
    assert_eq!(cpu.get_x(), 0xFF);
    assert!(cpu.get_flag(Flags::Sign));
    cpu.do_ldy(0x7F);
    cpu.do_iny();
    assert_eq!(cpu.get_y(), 0x80);
    assert!(cpu.get_flag(Flags::Sign));
    cpu.do_dey();
    assert_eq!(cpu.get_y(), 0x7F);
    assert!(!cpu.get_flag(Flags::Sign));
    mem.write_byte(0x0300, 0xFF);
    cpu.do_inc(&mut mem, 0x0300);
    assert_eq!(mem.read_byte(0x0300), 0x00);
    assert!(cpu.get_flag(Flags::Zero));
    cpu.do_dec(&mut mem, 0x0300);
    assert_eq!(mem.read_byte(0x0300), 0xFF);
    assert!(cpu.get_flag(Flags::Sign));
}

#[test]
fn transfers() {
    let mut cpu = CPU::new();
    cpu.do_lda(0x80);
    cpu.do_tax();
    assert_eq!(cpu.get_x(), 0x80);
    cpu.do_tay();
    assert_eq!(cpu.get_y(), 0x80);
    cpu.do_lda(0x01);
    let st: u8 = cpu.get_status();
    cpu.do_txs();
    assert_eq!(cpu.get_sp(), 0x80);
    assert_eq!(cpu.get_status(), st);
    cpu.do_ldx(0);
    cpu.do_tsx();
    assert_eq!(cpu.get_x(), 0x80);
    assert!(cpu.get_flag(Flags::Sign));
    cpu.do_ldy(0);
    cpu.do_tya();
    assert_eq!(cpu.get_a(), 0);
    assert!(cpu.get_flag(Flags::Zero));
    cpu.do_txa();
    assert_eq!(cpu.get_a(), 0x80);
}

#[test]
fn flag_instructions() {
    let mut cpu = CPU::new();
    cpu.do_sec();
    cpu.do_sed();
    cpu.do_sei();
    assert_eq!(cpu.get_status(), 0x20 | 0x01 | 0x08 | 0x04);
    cpu.do_clc();
    assert_eq!(cpu.get_status(), 0x20 | 0x08 | 0x04);
    cpu.do_cld();
    assert_eq!(cpu.get_status(), 0x20 | 0x04);
    cpu.do_cli();
    assert_eq!(cpu.get_status(), 0x20);
    cpu.set_flag(Flags::Overflow, true);
    assert_eq!(cpu.get_status(), 0x60);
    cpu.do_clv();
    assert_eq!(cpu.get_status(), 0x20);
    cpu.do_nop();
    assert_eq!(cpu.get_status(), 0x20);
    assert_eq!(Flags::Carry.mask(), 0x01);
    assert_eq!(Flags::Zero.mask(), 0x02);
    assert_eq!(Flags::Interrupt.mask(), 0x04);
    assert_eq!(Flags::Decimal.mask(), 0x08);
    assert_eq!(Flags::Break.mask(), 0x10);
    assert_eq!(Flags::Overflow.mask(), 0x40);
    assert_eq!(Flags::Sign.mask(), 0x80);
}

#[test]
fn branches() {
    let mut cpu = CPU::new();
    cpu.set_pc(0x0207);
    cpu.jmp_relative(0xFB);
    assert_eq!(cpu.get_pc(), 0x0202);
    cpu.jmp_relative(0x05);
    assert_eq!(cpu.get_pc(), 0x0207);
    cpu.set_pc(0x0001);
    cpu.jmp_relative(0x80);
    assert_eq!(cpu.get_pc(), 0xFF81);
    cpu.set_pc(0xFFF0);
    cpu.jmp_relative(0x7F);
    assert_eq!(cpu.get_pc(), 0x006F);

    cpu.set_pc(0x1000);
    cpu.do_clc();
    cpu.do_bcs(0x10);
    assert_eq!(cpu.get_pc(), 0x1000);
    cpu.do_bcc(0x10);
    assert_eq!(cpu.get_pc(), 0x1010);
    cpu.do_lda(0);
    cpu.do_bne(0x10);
    assert_eq!(cpu.get_pc(), 0x1010);
    cpu.do_beq(0x10);
    assert_eq!(cpu.get_pc(), 0x1020);
    cpu.do_bmi(0x10);
    assert_eq!(cpu.get_pc(), 0x1020);
    cpu.do_bpl(0x10);
    assert_eq!(cpu.get_pc(), 0x1030);
    cpu.do_bvs(0x10);
    assert_eq!(cpu.get_pc(), 0x1030);
    cpu.do_bvc(0x10);
    assert_eq!(cpu.get_pc(), 0x1040);
}

#[test]
fn addressing_modes() {
    let mut mem = MemC64::new();
    let mut cpu = CPU::new();
    mem.load_ram(&vec![0xB5, 0x80], 0x0200);
    mem.write_byte(0x007F, 0x99);
    cpu.do_ldx(0xFF);
    cpu.set_pc(0x0200);
    step(&mut cpu, &mut mem);
    assert_eq!(cpu.get_a(), 0x99);

    // LDA ($20,X) with X = 4: pointer at $24
    mem.load_ram(&vec![0xA1, 0x20], 0x0200);
    mem.load_ram(&vec![0x00, 0x30], 0x0024);
    mem.write_byte(0x3000, 0x5A);
    cpu.do_ldx(0x04);
    cpu.set_pc(0x0200);
    step(&mut cpu, &mut mem);
    assert_eq!(cpu.get_a(), 0x5A);

    // LDA ($24),Y with Y = $10
    mem.load_ram(&vec![0xB1, 0x24], 0x0200);
    mem.write_byte(0x3010, 0xA5);
    cpu.do_ldy(0x10);
    cpu.set_pc(0x0200);
    step(&mut cpu, &mut mem);
    assert_eq!(cpu.get_a(), 0xA5);

    // LDA $30F0,Y
    mem.load_ram(&vec![0xB9, 0xF0, 0x30], 0x0200);
    mem.write_byte(0x3100, 0x11);
    cpu.set_pc(0x0200);
    step(&mut cpu, &mut mem);
    assert_eq!(cpu.get_a(), 0x11);

    // LDA $FFFF,X wraps to $0003
    mem.load_ram(&vec![0xBD, 0xFF, 0xFF], 0x0200);
    mem.write_byte(0x0003, 0x22);
    cpu.do_ldx(0x04);
    cpu.set_pc(0x0200);
    step(&mut cpu, &mut mem);
    assert_eq!(cpu.get_a(), 0x22);

    // JMP ($3000)
    mem.load_ram(&vec![0x6C, 0x00, 0x30], 0x0200);
    mem.load_ram(&vec![0x78, 0x56], 0x3000);
    cpu.set_pc(0x0200);
    let (_, cycles) = step(&mut cpu, &mut mem);
    assert_eq!(cpu.get_pc(), 0x5678);
    assert_eq!(cycles, 5);

    // STA $0400 and STX, STY in the zero page
    mem.load_ram(&vec![0x8D, 0x00, 0x04, 0x86, 0x10, 0x84, 0x11], 0x0200);
    cpu.do_lda(0x42);
    cpu.do_ldx(0x43);
    cpu.do_ldy(0x44);
    let st: u8 = cpu.get_status();
    cpu.set_pc(0x0200);
    step(&mut cpu, &mut mem);
    step(&mut cpu, &mut mem);
    step(&mut cpu, &mut mem);
    assert_eq!(mem.read_byte(0x0400), 0x42);
    assert_eq!(mem.read_byte(0x0010), 0x43);
    assert_eq!(mem.read_byte(0x0011), 0x44);
    assert_eq!(cpu.get_status(), st);
}

#[test]
fn operand_projections() {
    let mut mem = MemC64::new();
    let mut cpu = CPU::new();
    mem.write_byte(0x1234, 0x77);
    cpu.do_lda(0x09);
    assert_eq!(cpu.operand_source(&mem, &Operand::Accumulator), 0x09);
    assert_eq!(cpu.operand_source(&mem, &Operand::Value(0x33)), 0x33);
    assert_eq!(cpu.operand_source(&mem, &Operand::Address(0x1234)), 0x77);
    assert_eq!(cpu.operand_target(&Operand::Accumulator), 0x0009);
    assert_eq!(cpu.operand_target(&Operand::Value(0x33)), 0x0033);
    assert_eq!(cpu.operand_target(&Operand::Address(0x1234)), 0x1234);
    mem.load_ram(&vec![0xEA], 0x0200);
    cpu.set_pc(0x0200);
    let nop = get_opcode(0xEA).unwrap();
    assert_eq!(cpu.fetch_operand(&mem, &nop), Operand::Value(0));
    let asl = get_opcode(0x0A).unwrap();
    assert_eq!(cpu.fetch_operand(&mem, &asl), Operand::Accumulator);
}

#[test]
fn stack_words() {
    let mut mem = MemC64::new();
    let mut cpu = CPU::new();
    cpu.push_word(&mut mem, 0xBEEF);
    assert_eq!(mem.read_byte(0x01FF), 0xBE);
    assert_eq!(mem.read_byte(0x01FE), 0xEF);
    assert_eq!(cpu.get_sp(), 0xFD);
    assert_eq!(cpu.pop_word(&mem), 0xBEEF);
    assert_eq!(cpu.get_sp(), 0xFF);
    // the stack pointer wraps within the stack page
    cpu.do_ldx(0x00);
    cpu.do_txs();
    cpu.push_byte(&mut mem, 0x11);
    assert_eq!(mem.read_byte(0x0100), 0x11);
    assert_eq!(cpu.get_sp(), 0xFF);
    assert_eq!(cpu.pop_byte(&mem), 0x11);
    assert_eq!(cpu.get_sp(), 0x00);
}

#[test]
fn brk_pushes_and_vectors() {
    let (mut cpu, mut mem) = machine(&[0x00], 0x0200);
    mem.load_rom(&vec![0x34, 0x12], 0xFFFE);
    let (_, cycles) = step(&mut cpu, &mut mem);
    assert_eq!(cycles, 7);
    assert_eq!(cpu.get_pc(), 0x1234);
    assert_eq!(mem.read_byte(0x01FF), 0x02);
    assert_eq!(mem.read_byte(0x01FE), 0x02);
    assert_eq!(mem.read_byte(0x01FD), 0x30);
    assert_eq!(cpu.get_sp(), 0xFC);
    assert!(cpu.get_flag(Flags::Interrupt));
    assert!(cpu.get_flag(Flags::Break));
    // RTI goes back behind the padding byte and restores the status
    mem.write_byte(0x1234, 0x40);
    step(&mut cpu, &mut mem);
    assert_eq!(cpu.get_pc(), 0x0202);
    assert_eq!(cpu.get_status(), 0x30);
    assert_eq!(cpu.get_sp(), 0xFF);
}

#[test]
fn irq_respects_the_interrupt_flag() {
    let mut mem = MemC64::new();
    mem.load_rom(&vec![0x00, 0x90], 0xFFFE);
    let mut cpu = CPU::new();
    cpu.set_pc(0x0300);
    cpu.do_sei();
    cpu.trigger_irq(&mut mem);
    assert_eq!(cpu.get_pc(), 0x0300);
    assert_eq!(cpu.get_sp(), 0xFF);
    cpu.do_cli();
    cpu.set_flag(Flags::Break, true);
    cpu.trigger_irq(&mut mem);
    assert_eq!(cpu.get_pc(), 0x9000);
    assert_eq!(mem.read_byte(0x01FF), 0x03);
    assert_eq!(mem.read_byte(0x01FE), 0x00);
    assert_eq!(mem.read_byte(0x01FD), 0x20);
    assert!(cpu.get_flag(Flags::Interrupt));
    assert!(!cpu.get_flag(Flags::Break));
    assert_eq!(cpu.get_sp(), 0xFC);
}

#[test]
fn breakpoint_reports_a_hit() {
    let (mut cpu, mut mem) = machine(&[0xA9, 0x05, 0xA9, 0x06, 0xEA], 0x0200);
    cpu.set_breakpoint(0x0204);
    let (hit1, _) = step(&mut cpu, &mut mem);
    let (hit2, _) = step(&mut cpu, &mut mem);
    assert!(!hit1);
    assert!(hit2);
    cpu.set_breakpoint(0xFFFF);
    let (hit3, _) = step(&mut cpu, &mut mem);
    assert!(!hit3);
}

#[test]
fn program_counter_wraps() {
    let mut mem = MemC64::new();
    mem.write_byte(0x0001, 0x05);
    mem.write_byte(0xFFFF, 0xEA);
    let mut cpu = CPU::new();
    cpu.set_pc(0xFFFF);
    step(&mut cpu, &mut mem);
    assert_eq!(cpu.get_pc(), 0x0000);
    // the operand of an instruction at $FFFF is read from $0000
    mem.write_byte(0xFFFF, 0xA9);
    cpu.set_pc(0xFFFF);
    step(&mut cpu, &mut mem);
    assert_eq!(cpu.get_a(), 0x2F);
    assert_eq!(cpu.get_pc(), 0x0001);
}

#[test]
fn registers_as_text() {
    let mut cpu = CPU::new();
    assert_eq!(cpu.to_string(), "PC:$0000 A:$00 X:$00 Y:$00 SP:$FF ST:00100000 [..-.....]");
    cpu.set_pc(0xFCE2);
    cpu.do_lda(0x80);
    cpu.do_ldx(0x1A);
    cpu.do_ldy(0x00);
    cpu.do_sec();
    assert_eq!(cpu.to_string(), "PC:$FCE2 A:$80 X:$1A Y:$00 SP:$FF ST:00100011 [..-...ZC]");
    assert_eq!(cpu.pp_flags(&0xFF), "SV-BDIZC");
    assert_eq!(cpu.pp_flags(&0x00), "........");
    assert_eq!(cpu.pp_flags(&0xC1), "SV.....C");
}
