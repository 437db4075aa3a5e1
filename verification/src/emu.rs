//! The machine: the CPU, the VIC and the bus put together, the steps that a
//! host drives it by, and program loading.
//!
//! The host owns the outer loop. It calls `run_slice`, which steps the
//! machine until a step asks to stop or 15 ms have passed, then hands the
//! pressed keys to `end_frame`, which yields the frame to draw and raises
//! the interrupt.

use vstd::prelude::*;
use crate::bits::{spec_hi, spec_lo, spec_sub16, spec_sub8};
use crate::cpu::{
    spec_hit_break,
    spec_invalid_opcode_message,
    spec_irq,
    spec_jsr,
    spec_pha,
    spec_php,
    spec_pla,
    spec_plp,
    spec_pop_word,
    spec_push_word,
    spec_rts,
    spec_run,
    spec_stack_addr,
    CpuState,
    Flags,
    CPU,
};
use crate::keyboard::KEY_ESCAPE;
use crate::memc64::{
    lemma_ram_reads_back,
    lemma_ram_write_is_local,
    spec_cpu_read,
    spec_cpu_write,
    spec_load,
    spec_power_on,
    MemC64,
    MemView,
};
use crate::memory::MemIO;
use crate::opcodes::spec_get_opcode;
use crate::vic::{spec_clock, spec_frame, spec_init, DrawCommand, VicState, VIC};

verus! {

pub const BORDER_WIDTH: u32 = 32;

pub const BORDER_HEIGHT: u32 = 16;

pub const VIEWABLE_WIDTH: u32 = 320;

pub const VIEWABLE_HEIGHT: u32 = 200;

pub const WINDOW_WIDTH: u32 = VIEWABLE_WIDTH + (BORDER_WIDTH * 2);

pub const WINDOW_HEIGHT: u32 = VIEWABLE_HEIGHT + (BORDER_HEIGHT * 2);

/// The factor by which the picture is enlarged on the host surface.
pub const SCALE: u8 = 2;

/// Where BASIC programs are loaded.
pub const BASIC_START: u16 = 0x0801;

/// Why a program file was not loaded.
#[derive(Clone, Copy, Debug, PartialEq, Eq)]
pub enum LoadError {
    /// The file is shorter than a load address.
    NoLoadAddress,
    /// The file's load address is not $0801; `lo` and `hi` are its first two
    /// bytes.
    WrongTarget { lo: u8, hi: u8 },
    /// The program does not fit between $0801 and the end of RAM.
    TooLarge,
}

/// How a step ended.
pub struct StepOutcome {
    /// The host should stop stepping: a breakpoint or a failure.
    pub stop: bool,
    /// The diagnostic of a step that failed.
    pub error: Option<String>,
}

/// The word that the BASIC pointers take after a load of `n` bytes: one past
/// the program's last byte.
pub open spec fn spec_program_end(n: nat) -> u16 {
    ((0x0801 + n + 1) % 0x10000) as u16
}

/// The low byte of a BASIC pointer as it is patched: the word modulo 255.
pub open spec fn spec_pointer_low(word: u16) -> u8 {
    (word % 255) as u8
}

/// The high byte of a BASIC pointer as it is patched: the word divided by
/// 255, in eight bits.
pub open spec fn spec_pointer_high(word: u16) -> u8 {
    ((word / 255) % 256) as u8
}

/// Whether a program file is accepted: it starts with the load address
/// $0801 and what follows fits into RAM from there.
pub open spec fn spec_prg_accepted(data: Seq<u8>) -> bool {
    &&& data.len() >= 2
    &&& data[0] == 0x01
    &&& data[1] == 0x08
    &&& 0x0801 + (data.len() - 2) <= 0x10000
}

/// The bus after an accepted program file was loaded: its bytes past the
/// load address at $0801, and both BASIC pointers at $002D and $002F patched.
pub open spec fn spec_load_prg(m: MemView, data: Seq<u8>) -> MemView {
    let body = data.subrange(2, data.len() as int);
    let end = spec_program_end(body.len());
    let m0 = MemView { ram: spec_load(m.ram, body, BASIC_START), ..m };
    let m1 = spec_cpu_write(m0, 0x002D, spec_pointer_low(end));
    let m2 = spec_cpu_write(m1, 0x002E, spec_pointer_high(end));
    let m3 = spec_cpu_write(m2, 0x002F, spec_pointer_low(end));
    spec_cpu_write(m3, 0x0030, spec_pointer_high(end))
}

/// The time that one batch of steps may take, in nanoseconds: 15 ms.
pub const SLICE_NANOS: u64 = 15_000_000;

/// The state of the whole machine.
pub struct MachineView {
    pub cpu: CpuState,
    pub vic: VicState,
    pub mem: MemView,
}

/// How a batch of steps ended.
pub struct SliceOutcome {
    /// The number of steps that ran.
    pub steps: u32,
    /// The last step asked to stop: a breakpoint or a failure.
    pub stop: bool,
    /// The diagnostic of a last step that failed.
    pub error: Option<String>,
}

/// The diagnostic of the step that the machine is about to take, where that
/// step fails: the byte at PC is no documented opcode.
pub open spec fn spec_step_error(s: MachineView) -> Option<Seq<char>> {
    match spec_get_opcode(spec_cpu_read(s.mem, s.cpu.pc)) {
        Some(_) => None,
        None => Some(spec_invalid_opcode_message(spec_cpu_read(s.mem, s.cpu.pc), s.cpu.pc)),
    }
}

/// One instruction of the CPU: the machine after it, and whether it asks to
/// stop. A step that fails leaves the machine as it was and asks to stop.
pub open spec fn spec_cpu_step(s: MachineView) -> (MachineView, bool) {
    match spec_get_opcode(spec_cpu_read(s.mem, s.cpu.pc)) {
        Some(op) => {
            let (c, m) = spec_run::<MemC64>(op, s.cpu, s.mem);
            (MachineView { cpu: CpuState { brk: false, ..c }, mem: m, ..s }, spec_hit_break(c))
        },
        None => (s, true),
    }
}

/// One step of the machine: an instruction of the CPU, then a cycle of the
/// VIC.
pub open spec fn spec_step(s: MachineView) -> (MachineView, bool) {
    let (s1, stop) = spec_cpu_step(s);
    let (v, m) = spec_clock::<MemC64>(s1.vic, s1.mem);
    (MachineView { vic: v, mem: m, ..s1 }, stop)
}

/// The machine after `n` steps.
pub open spec fn spec_steps(s: MachineView, n: nat) -> MachineView
    decreases n,
{
    if n == 0 {
        s
    } else {
        spec_step(spec_steps(s, (n - 1) as nat)).0
    }
}

/// Whether the step taken after `n` steps asks to stop.
pub open spec fn spec_stops_after(s: MachineView, n: nat) -> bool {
    spec_step(spec_steps(s, n)).1
}

/// Whether a time slice that began at counter value `start` is still open at
/// counter value `now`: fewer than 15 ms have passed. The span is the
/// difference of the two 64-bit counter values read as a signed number, so
/// that a counter that was set back leaves the slice open.
pub open spec fn spec_slice_open(start: u64, now: u64) -> bool {
    let span = (now - start) % 0x1_0000_0000_0000_0000;
    span >= 0x8000_0000_0000_0000 || span < SLICE_NANOS
}

/// `time::precise_time_ns`: the value of a high-resolution counter, in
/// nanoseconds since an unspecified epoch. Nothing is claimed of the value.
#[verifier::external_body]
fn precise_time_ns() -> u64 {
    time::precise_time_ns()
}

pub fn slice_open(start: u64, now: u64) -> (open: bool)
    ensures
        open == spec_slice_open(start, now),
{
    if now >= start {
        let span = now - start;
        span >= 0x8000_0000_0000_0000 || span < SLICE_NANOS
    } else {
        let back = start - now;
        // the span is 2^64 - back
        back <= 0x8000_0000_0000_0000 || back > 0xFFFF_FFFF_FFFF_FFFF - SLICE_NANOS + 1
    }
}

/// The C64: its CPU, its VIC and its memory bus.
pub struct C64 {
    pub cpu: CPU,
    pub vic: VIC,
    pub mem: MemC64,
}

impl View for C64 {
    type V = MachineView;

    open spec fn view(&self) -> MachineView {
        MachineView { cpu: self.cpu@, vic: self.vic@, mem: self.mem@ }
    }
}

impl C64 {
    /// The machine at power-on.
    pub fn new() -> (c64: C64)
        ensures
            c64.cpu@ == CpuState::initial(),
            c64.mem@ == spec_power_on(),
            c64.vic@ == (VicState {
                cycles_per_line: 65,
                max_lines: 263,
                scale: SCALE,
                curr_line: 0,
                curr_cycle: 0,
            }),
    {
        C64 { cpu: CPU::new(), vic: VIC::new(SCALE), mem: MemC64::new() }
    }

    /// Points the CPU at `start_addr` and initialises the VIC.
    pub fn start(&mut self, start_addr: u16)
        ensures
            final(self).cpu@ == old(self).cpu@.with_pc(start_addr),
            final(self).mem@ == spec_init::<MemC64>(old(self).mem@),
            final(self).vic@ == old(self).vic@,
    {
        self.cpu.set_pc(start_addr);
        self.vic.init(&mut self.mem);
    }

    /// Runs one instruction. A step that fails asks to stop and reports why;
    /// the machine is then as before. `cycles` takes the cycle count of an
    /// instruction that ran.
    pub fn do_single_step(&mut self, cycles: &mut u8) -> (out: StepOutcome)
        ensures
            (final(self)@, out.stop) == spec_cpu_step(old(self)@),
            match spec_step_error(old(self)@) {
                Some(msg) => out.error is Some && out.error->0@ == msg && *final(cycles) == *old(
                    cycles,
                ),
                None => out.error is None && *final(cycles) == spec_get_opcode(
                    spec_cpu_read(old(self).mem@, old(self).cpu@.pc),
                )->0.cycles,
            },
    {
        match self.cpu.single_step(&mut self.mem, cycles) {
            Ok(val) => StepOutcome { stop: val, error: None },
            Err(e) => StepOutcome { stop: true, error: Some(e) },
        }
    }

    /// Runs one instruction and then one cycle of the VIC.
    pub fn run_step(&mut self, cycles: &mut u8) -> (out: StepOutcome)
        ensures
            (final(self)@, out.stop) == spec_step(old(self)@),
            match spec_step_error(old(self)@) {
                Some(msg) => out.error is Some && out.error->0@ == msg && *final(cycles) == *old(
                    cycles,
                ),
                None => out.error is None && *final(cycles) == spec_get_opcode(
                    spec_cpu_read(old(self).mem@, old(self).cpu@.pc),
                )->0.cycles,
            },
            final(self).vic@.wf(),
    {
        let out = self.do_single_step(cycles);
        self.vic.clock(&mut self.mem);
        out
    }

    /// Runs steps until one asks to stop, the time slice of 15 ms is used up,
    /// or `max_steps` steps have run. How many steps fit into the slice is
    /// the clock's to say; the outcome tells the number, and the machine is
    /// then as that many steps leave it. No step but the last asked to stop.
    pub fn run_slice(&mut self, max_steps: u32) -> (out: SliceOutcome)
        ensures
            out.steps <= max_steps,
            final(self)@ == spec_steps(old(self)@, out.steps as nat),
            forall|j: nat| j + 1 < out.steps ==> !spec_stops_after(old(self)@, j),
            out.stop == (out.steps > 0 && spec_stops_after(old(self)@, (out.steps - 1) as nat)),
            out.steps == 0 ==> out.error is None,
            out.steps > 0 ==> match spec_step_error(
                spec_steps(old(self)@, (out.steps - 1) as nat),
            ) {
                Some(msg) => out.error is Some && out.error->0@ == msg,
                None => out.error is None,
            },
    {
        let tick = precise_time_ns();
        let mut steps: u32 = 0;
        let mut last = StepOutcome { stop: false, error: None };
        while steps < max_steps
            invariant
                steps <= max_steps,
                self@ == spec_steps(old(self)@, steps as nat),
                forall|j: nat| j < steps ==> !spec_stops_after(old(self)@, j),
                !last.stop,
                steps == 0 ==> last.error is None,
                steps > 0 ==> match spec_step_error(
                    spec_steps(old(self)@, (steps - 1) as nat),
                ) {
                    Some(msg) => last.error is Some && last.error->0@ == msg,
                    None => last.error is None,
                },
            decreases max_steps - steps,
        {
            if !slice_open(tick, precise_time_ns()) {
                break;
            }
            let mut step_cycles: u8 = 0;
            last = self.run_step(&mut step_cycles);
            steps = steps + 1;
            if last.stop {
                return SliceOutcome { steps, stop: true, error: last.error };
            }
        }
        SliceOutcome { steps, stop: false, error: last.error }
    }

    /// Ends a host frame: takes the pressed keys, paints the frame, and
    /// raises the maskable interrupt.
    pub fn end_frame(&mut self, keys: Vec<i32>) -> (cmds: Vec<DrawCommand>)
        ensures
            final(self).vic@ == old(self).vic@,
            ({
                let m = MemView { keys: keys@, ..old(self).mem@ };
                &&& cmds@ == spec_frame::<MemC64>(m, old(self).vic@.scale)
                &&& (final(self).cpu@, final(self).mem@) == spec_irq::<MemC64>(old(self).cpu@, m)
            }),
    {
        self.mem.refresh(keys);
        let cmds = self.vic.refresh(&self.mem);
        self.cpu.trigger_irq(&mut self.mem);
        cmds
    }

    /// Loads a program file: two bytes of load address, then the program.
    /// Only files for $0801 are accepted. On success the result is the
    /// number of program bytes; on failure the bus is unchanged.
    pub fn do_load(&mut self, data: &Vec<u8>) -> (r: Result<usize, LoadError>)
        ensures
            final(self).cpu@ == old(self).cpu@,
            final(self).vic@ == old(self).vic@,
            spec_prg_accepted(data@) ==> r == Ok::<usize, LoadError>((data@.len() - 2) as usize)
                && final(self).mem@ == spec_load_prg(old(self).mem@, data@),
            !spec_prg_accepted(data@) ==> r is Err && final(self).mem@ == old(self).mem@,
            data@.len() < 2 ==> r == Err::<usize, LoadError>(LoadError::NoLoadAddress),
            data@.len() >= 2 && (data@[0] != 0x01 || data@[1] != 0x08) ==> r == Err::<
                usize,
                LoadError,
            >(LoadError::WrongTarget { lo: data@[0], hi: data@[1] }),
            data@.len() >= 2 && data@[0] == 0x01 && data@[1] == 0x08 && 0x0801 + (data@.len() - 2)
                > 0x10000 ==> r == Err::<usize, LoadError>(LoadError::TooLarge),
    {
        if data.len() < 2 {
            return Err(LoadError::NoLoadAddress);
        }
        if data[0] != 0x01 || data[1] != 0x08 {
            return Err(LoadError::WrongTarget { lo: data[0], hi: data[1] });
        }
        let n = data.len() - 2;
        if n > 0x10000 - 0x0801 {
            return Err(LoadError::TooLarge);
        }
        let mut to_load: Vec<u8> = Vec::new();
        let mut i: usize = 2;
        while i < data.len()
            invariant
                2 <= i <= data.len(),
                to_load@ == data@.subrange(2, i as int),
            decreases data.len() - i,
        {
            to_load.push(data[i]);
            assert(to_load@ =~= data@.subrange(2, i as int + 1));
            i = i + 1;
        }
        self.mem.load_ram(&to_load, BASIC_START);

        let last: u16 = ((0x0801 + n + 1) % 0x10000) as u16;
        let last_low = (last % 255) as u8;
        let last_high = ((last / 255) % 256) as u8;
        self.mem.write_byte(0x002D, last_low);
        self.mem.write_byte(0x002E, last_high);
        self.mem.write_byte(0x002F, last_low);
        self.mem.write_byte(0x0030, last_high);
        Ok(n)
    }
}

/// Whether the host asks for the monitor: the Escape key is among the
/// pressed keys.
pub fn wants_break(keys: &Vec<i32>) -> (b: bool)
    ensures
        b == keys@.contains(KEY_ESCAPE),
{
    let mut i: usize = 0;
    while i < keys.len()
        invariant
            i <= keys.len(),
            forall|k: int| 0 <= k < i ==> keys@[k] != KEY_ESCAPE,
        decreases keys.len() - i,
    {
        if keys[i] == KEY_ESCAPE {
            return true;
        }
        i = i + 1;
    }
    false
}

/// PHP followed by PLP leaves every register as it was, but for the status
/// byte, in which the break flag and bit 5 are then set.
pub proof fn lemma_php_then_plp(c: CpuState, m: MemView)
    requires
        m.wf(),
    ensures
        ({
            let (c1, m1) = spec_php::<MemC64>(c, m);
            spec_plp::<MemC64>(c1, m1) == (CpuState { st: c.st | 0x30, ..c })
        }),
{
    let st = c.st;
    lemma_ram_reads_back(m, spec_stack_addr(c.sp), st | 0x30);
    assert((st | 0x30) | 0x20 == st | 0x30) by (bit_vector);
}

/// Where the break flag is set, PHP followed by PLP leaves the status byte
/// as it was, with bit 5 set.
pub proof fn lemma_php_then_plp_restores_status(c: CpuState, m: MemView)
    requires
        m.wf(),
        c.flag(Flags::Break),
    ensures
        ({
            let (c1, m1) = spec_php::<MemC64>(c, m);
            spec_plp::<MemC64>(c1, m1) == (CpuState { st: c.st | 0x20, ..c })
        }),
{
    let st = c.st;
    lemma_php_then_plp(c, m);
    assert(st | 0x30 == st | 0x20) by (bit_vector)
        requires
            st & 0x10 != 0,
    ;
}

/// PHA followed by PLA leaves A and the stack pointer as they were, and Z
/// and S as A demands.
pub proof fn lemma_pha_then_pla(c: CpuState, m: MemView)
    requires
        m.wf(),
    ensures
        ({
            let (c1, m1) = spec_pha::<MemC64>(c, m);
            spec_pla::<MemC64>(c1, m1) == c.with_zero_sign(c.a)
        }),
{
    lemma_ram_reads_back(m, spec_stack_addr(c.sp), c.a);
}

/// A word pushed is the word popped, and the stack pointer is back where it
/// was.
pub proof fn lemma_push_then_pop_word(c: CpuState, m: MemView, w: u16)
    requires
        m.wf(),
    ensures
        ({
            let (c1, m1) = spec_push_word::<MemC64>(c, m, w);
            spec_pop_word::<MemC64>(c1, m1) == (c, w)
        }),
{
    let hi_addr = spec_stack_addr(c.sp);
    let lo_addr = spec_stack_addr(spec_sub8(c.sp, 1));
    let m_hi = spec_cpu_write(m, hi_addr, spec_hi(w));
    lemma_ram_reads_back(m, hi_addr, spec_hi(w));
    lemma_ram_reads_back(m_hi, lo_addr, spec_lo(w));
    lemma_ram_write_is_local(m_hi, lo_addr, spec_lo(w), hi_addr);
}

/// JSR followed by RTS continues behind the JSR: with PC past the JSR
/// instruction, the pair leaves every register as it was.
pub proof fn lemma_jsr_then_rts(c: CpuState, m: MemView, addr: u16)
    requires
        m.wf(),
    ensures
        ({
            let (c1, m1) = spec_jsr::<MemC64>(c, m, addr);
            spec_rts::<MemC64>(c1, m1) == c
        }),
{
    let (c0, m1) = spec_push_word::<MemC64>(c, m, spec_sub16(c.pc, 1));
    lemma_push_then_pop_word(c, m, spec_sub16(c.pc, 1));
    let c1 = c0.with_pc(addr);
    assert(spec_pop_word::<MemC64>(c1, m1).0 == spec_pop_word::<MemC64>(c0, m1).0.with_pc(addr));
    assert(spec_pop_word::<MemC64>(c1, m1).1 == spec_pop_word::<MemC64>(c0, m1).1);
}

} // verus!
