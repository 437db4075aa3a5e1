use retroc64::emu::{
    BORDER_HEIGHT, BORDER_WIDTH, VIEWABLE_HEIGHT, VIEWABLE_WIDTH, WINDOW_HEIGHT, WINDOW_WIDTH,
};
use retroc64::memc64::{CiaIO, MemC64, VicIO};
use retroc64::vic::{palette, DrawCommand, VIC};

/// A software surface: one palette entry per pixel.
struct Surface {
    width: i64,
    height: i64,
    pixels: Vec<u8>,
    color: u8,
    presented: bool,
}

impl Surface {
    fn new(scale: u8) -> Surface {
        let width: i64 = WINDOW_WIDTH as i64 * scale as i64;
        let height: i64 = WINDOW_HEIGHT as i64 * scale as i64;
        Surface {
            width,
            height,
            pixels: vec![0xFF; (width * height) as usize],
            color: 0xFF,
            presented: false,
        }
    }

    fn run(&mut self, cmds: &[DrawCommand]) {
        for cmd in cmds {
            match *cmd {
                DrawCommand::SetColor(c) => {
                    assert!(c < 16);
                    self.color = c;
                }
                DrawCommand::Clear => {
                    for p in self.pixels.iter_mut() {
                        *p = self.color;
                    }
                }
                DrawCommand::FillRect { x, y, w, h } => {
                    for yy in (y as i64)..(y as i64 + h as i64) {
                        for xx in (x as i64)..(x as i64 + w as i64) {
                            if 0 <= xx && xx < self.width && 0 <= yy && yy < self.height {
                                self.pixels[(yy * self.width + xx) as usize] = self.color;
                            }
                        }
                    }
                }
                DrawCommand::Present => self.presented = true,
            }
        }
    }

    fn at(&self, x: i64, y: i64) -> u8 {
        self.pixels[(y * self.width + x) as usize]
    }
}

fn paint(vic: &VIC, mem: &MemC64, scale: u8) -> Surface {
    let cmds = vic.refresh(mem);
    assert_eq!(cmds.last(), Some(&DrawCommand::Present));
    let mut surface = Surface::new(scale);
    surface.run(&cmds);
    assert!(surface.presented);
    surface
}

fn inner(x: i64, y: i64) -> bool {
    (BORDER_WIDTH as i64) <= x
        && x < (BORDER_WIDTH + VIEWABLE_WIDTH) as i64
        && (BORDER_HEIGHT as i64) <= y
        && y < (BORDER_HEIGHT + VIEWABLE_HEIGHT) as i64
}

#[test]
fn geometry() {
    assert_eq!(WINDOW_WIDTH, 384);
    assert_eq!(WINDOW_HEIGHT, 232);
    assert_eq!(palette(0), (0x00, 0x00, 0x00));
    assert_eq!(palette(1), (0xff, 0xff, 0xff));
    assert_eq!(palette(6), (0x35, 0x28, 0x79));
    assert_eq!(palette(14), (0x6c, 0x5e, 0xb5));
    assert_eq!(palette(15), (0x95, 0x95, 0x95));
}

#[test]
fn init_sets_the_memory_pointers() {
    let mut mem = MemC64::new();
    let mut vic = VIC::new(2);
    vic.init(&mut mem);
    assert_eq!(mem.vic_read_register(0xD018), 0x14);
    assert_eq!(mem.vic_read_register(0xD016), 0x08);
    assert_eq!(vic.curr_line(), 0);
    assert_eq!(vic.curr_cycle(), 0);
}

#[test]
fn raster_stays_in_the_frame() {
    let mut mem = MemC64::new();
    let mut vic = VIC::new(1);
    vic.init(&mut mem);
    for n in 0u32..(65 * 263 * 2 + 7) {
        assert_eq!(vic.curr_cycle() as u32, n % 65);
        assert_eq!(vic.curr_line() as u32, (n / 65) % 263);
        vic.clock(&mut mem);
        assert!(vic.curr_line() < 263);
        assert!(vic.curr_cycle() < 65);
    }
}

#[test]
fn raster_line_is_published() {
    let mut mem = MemC64::new();
    let mut vic = VIC::new(1);
    mem.vic_write_register(0xD011, 0x1B);
    vic.clock(&mut mem);
    assert_eq!(mem.vic_read_register(0xD012), 0);
    assert_eq!(mem.vic_read_register(0xD011), 0x1B);
    for _ in 1..(65 * 200 + 1) {
        vic.clock(&mut mem);
    }
    assert_eq!(vic.curr_line(), 200);
    assert_eq!(mem.vic_read_register(0xD012), 200);
    assert_eq!(mem.vic_read_register(0xD011), 0x1B);
    for _ in 0..(65 * 57) {
        vic.clock(&mut mem);
    }
    assert_eq!(vic.curr_line(), 257);
    assert_eq!(mem.vic_read_register(0xD012), 1);
    assert_eq!(mem.vic_read_register(0xD011), 0x9B);
    for _ in 0..(65 * 6) {
        vic.clock(&mut mem);
    }
    assert_eq!(vic.curr_line(), 0);
    assert_eq!(mem.vic_read_register(0xD012), 0);
    assert_eq!(mem.vic_read_register(0xD011), 0x1B);
}

#[test]
fn blank_text_screen() {
    for scale in [1u8, 2] {
        let mut mem = MemC64::new();
        let mut vic = VIC::new(scale);
        vic.init(&mut mem);
        // power-on: the VIC sees bank 3, and the video matrix is at $0400 of it
        mem.load_ram(&vec![0x20; 1000], 0xC400);
        mem.vic_write_register(0xD021, 6);
        mem.vic_write_register(0xD020, 14);
        let surface = paint(&vic, &mem, scale);
        let s: i64 = scale as i64;
        for y in 0..surface.height {
            for x in 0..surface.width {
                let expected: u8 = if inner(x / s, y / s) { 6 } else { 14 };
                assert_eq!(surface.at(x, y), expected);
            }
        }
    }
}

#[test]
fn frame_starts_with_border_and_background() {
    let mut mem = MemC64::new();
    let mut vic = VIC::new(2);
    vic.init(&mut mem);
    mem.vic_write_register(0xD020, 0xFE);
    mem.vic_write_register(0xD021, 0xF6);
    let cmds = vic.refresh(&mem);
    assert_eq!(cmds[0], DrawCommand::SetColor(14));
    assert_eq!(cmds[1], DrawCommand::Clear);
    assert_eq!(cmds[2], DrawCommand::SetColor(6));
    assert_eq!(cmds[3], DrawCommand::FillRect { x: 64, y: 32, w: 640, h: 400 });
    // the first cell: background, its rectangle, foreground
    assert_eq!(cmds[4], DrawCommand::SetColor(6));
    assert_eq!(cmds[5], DrawCommand::FillRect { x: 64, y: 32, w: 16, h: 16 });
    assert_eq!(cmds[6], DrawCommand::SetColor(0));
    assert_eq!(cmds.len(), 4 + 3 * 1000 + 1);
}

#[test]
fn text_glyph_from_character_rom() {
    let mut mem = MemC64::new();
    let mut vic = VIC::new(1);
    vic.init(&mut mem);
    mem.cia_write_register(0xDD00, 0x03);
    // character 1: a diagonal
    mem.load_rom(&vec![0x80, 0x40, 0x20, 0x10, 0x08, 0x04, 0x02, 0x01], 0xD000 + 8);
    mem.load_ram(&vec![0x20; 1000], 0x0400);
    // row 2, column 3
    mem.load_ram(&vec![0x01], 0x0400 + 2 * 40 + 3);
    mem.write_register(0xD800 + 2 * 40 + 3, 0x01);
    mem.vic_write_register(0xD021, 6);
    mem.vic_write_register(0xD020, 14);
    let surface = paint(&vic, &mem, 1);
    for y in 0..surface.height {
        for x in 0..surface.width {
            let cx: i64 = x - 32 - 3 * 8;
            let cy: i64 = y - 16 - 2 * 8;
            let expected: u8 = if !inner(x, y) {
                14
            } else if 0 <= cx && cx < 8 && cx == cy {
                1
            } else {
                6
            };
            assert_eq!(surface.at(x, y), expected);
        }
    }
}

#[test]
fn extended_background_picks_the_register_by_character() {
    let mut mem = MemC64::new();
    let mut vic = VIC::new(1);
    vic.init(&mut mem);
    mem.vic_write_register(0xD011, 0x40);
    mem.vic_write_register(0xD021, 1);
    mem.vic_write_register(0xD022, 2);
    mem.vic_write_register(0xD023, 3);
    mem.vic_write_register(0xD024, 4);
    mem.load_ram(&vec![0x00, 0x40, 0x80, 0xC0], 0xC400);
    let surface = paint(&vic, &mem, 1);
    assert_eq!(surface.at(32, 16), 1);
    assert_eq!(surface.at(40, 16), 2);
    assert_eq!(surface.at(48, 16), 3);
    assert_eq!(surface.at(56, 16), 4);
    assert_eq!(surface.at(64, 16), 1);
}

#[test]
fn multicolor_text_cell() {
    let mut mem = MemC64::new();
    let mut vic = VIC::new(1);
    vic.init(&mut mem);
    mem.vic_write_register(0xD016, 0x18);
    mem.vic_write_register(0xD021, 1);
    mem.vic_write_register(0xD022, 2);
    mem.vic_write_register(0xD023, 3);
    // bank 3: character bitmaps are read from RAM at $D000
    mem.load_ram(&vec![0b00_01_10_11; 8], 0xD000);
    mem.write_register(0xD800, 0x0D);
    // the second cell has a colour below 8 and is drawn as a standard cell
    mem.write_register(0xD801, 0x05);
    let surface = paint(&vic, &mem, 1);
    for y in 16..24 {
        assert_eq!(surface.at(32, y), 1);
        assert_eq!(surface.at(33, y), 1);
        assert_eq!(surface.at(34, y), 2);
        assert_eq!(surface.at(35, y), 2);
        assert_eq!(surface.at(36, y), 3);
        assert_eq!(surface.at(37, y), 3);
        assert_eq!(surface.at(38, y), 5);
        assert_eq!(surface.at(39, y), 5);
        let standard: [u8; 8] = [1, 1, 1, 5, 5, 1, 5, 5];
        for bit in 0..8 {
            assert_eq!(surface.at(40 + bit as i64, y), standard[bit]);
        }
    }
}

#[test]
fn bitmap_mode_cells() {
    let mut mem = MemC64::new();
    let mut vic = VIC::new(1);
    vic.init(&mut mem);
    mem.vic_write_register(0xD011, 0x20);
    mem.vic_write_register(0xD018, 0x18);
    mem.cia_write_register(0xDD00, 0x02);
    // bank 1: bitmap at $2000 of it, colours at $0400 of it
    mem.load_ram(&vec![0xF0; 8], 0x4000 + 0x2000 + 41 * 8);
    mem.load_ram(&vec![0x27], 0x4000 + 0x0400 + 41);
    let surface = paint(&vic, &mem, 1);
    for y in 24..32 {
        for x in 40..44 {
            assert_eq!(surface.at(x, y), 2);
        }
        for x in 44..48 {
            assert_eq!(surface.at(x, y), 7);
        }
    }
    // every other cell has colour byte 0: black on black
    assert_eq!(surface.at(32, 16), 0);

    mem.vic_write_register(0xD016, 0x18);
    mem.vic_write_register(0xD021, 9);
    mem.load_ram(&vec![0b11_10_01_00; 8], 0x4000 + 0x2000 + 41 * 8);
    mem.write_register(0xD800 + 41, 0xFB);
    let multi = paint(&vic, &mem, 1);
    for y in 24..32 {
        assert_eq!(multi.at(40, y), 11);
        assert_eq!(multi.at(41, y), 11);
        assert_eq!(multi.at(42, y), 7);
        assert_eq!(multi.at(43, y), 7);
        assert_eq!(multi.at(44, y), 2);
        assert_eq!(multi.at(45, y), 2);
        assert_eq!(multi.at(46, y), 9);
        assert_eq!(multi.at(47, y), 9);
    }
}

#[test]
fn sprite_is_drawn_over_the_screen() {
    let mut mem = MemC64::new();
    let mut vic = VIC::new(1);
    vic.init(&mut mem);
    mem.cia_write_register(0xDD00, 0x03);
    mem.vic_write_register(0xD021, 6);
    mem.vic_write_register(0xD015, 0x04);
    mem.vic_write_register(0xD027 + 2, 0xF1);
    mem.vic_write_register(0xD000 + 4, 24 + 10);
    mem.vic_write_register(0xD000 + 5, 50 + 20);
    // sprite 2: pointer at $07FA, data at $0340
    mem.load_ram(&vec![0x0D], 0x0400 + 0x03F8 + 2);
    let mut data: Vec<u8> = vec![0; 63];
    data[0] = 0x80;
    data[2] = 0x01;
    data[60] = 0xFF;
    mem.load_ram(&data, 0x0340);
    let surface = paint(&vic, &mem, 1);
    let x0: i64 = 32 + 10;
    let y0: i64 = 16 + 20;
    assert_eq!(surface.at(x0, y0), 1);
    assert_eq!(surface.at(x0 + 1, y0), 6);
    assert_eq!(surface.at(x0 + 23, y0), 1);
    assert_eq!(surface.at(x0 + 22, y0), 6);
    for bit in 0..8 {
        assert_eq!(surface.at(x0 + bit, y0 + 20), 1);
    }
    assert_eq!(surface.at(x0 + 8, y0 + 20), 6);
    assert_eq!(surface.at(x0, y0 + 21), 6);

    // the ninth bit of X moves the sprite 256 pixels to the right
    mem.vic_write_register(0xD010, 0x04);
    let moved = paint(&vic, &mem, 1);
    assert_eq!(moved.at(x0, y0), 6);
    assert_eq!(moved.at(x0 + 256, y0), 1);

    // left of the origin the sprite is clipped by the surface
    mem.vic_write_register(0xD010, 0x00);
    mem.vic_write_register(0xD000 + 4, 0);
    let cmds = vic.refresh(&mem);
    assert!(cmds.contains(&DrawCommand::FillRect { x: 8, y: y0 as i32, w: 1, h: 1 }));
    assert!(cmds.contains(&DrawCommand::FillRect { x: 31, y: y0 as i32, w: 1, h: 1 }));
}
