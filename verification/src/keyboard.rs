//! The keyboard bridge: the host's pressed keys, read through the 8 x 8
//! switch matrix of the C64 keyboard.
//!
//! A host key is its USB usage number, the number that host scancodes carry.

use vstd::prelude::*;

verus! {

pub const KEY_A: i32 = 4;
pub const KEY_B: i32 = 5;
pub const KEY_C: i32 = 6;
pub const KEY_D: i32 = 7;
pub const KEY_E: i32 = 8;
pub const KEY_F: i32 = 9;
pub const KEY_G: i32 = 10;
pub const KEY_H: i32 = 11;
pub const KEY_I: i32 = 12;
pub const KEY_J: i32 = 13;
pub const KEY_K: i32 = 14;
pub const KEY_L: i32 = 15;
pub const KEY_M: i32 = 16;
pub const KEY_N: i32 = 17;
pub const KEY_O: i32 = 18;
pub const KEY_P: i32 = 19;
pub const KEY_Q: i32 = 20;
pub const KEY_R: i32 = 21;
pub const KEY_S: i32 = 22;
pub const KEY_T: i32 = 23;
pub const KEY_U: i32 = 24;
pub const KEY_V: i32 = 25;
pub const KEY_W: i32 = 26;
pub const KEY_X: i32 = 27;
pub const KEY_Y: i32 = 28;
pub const KEY_Z: i32 = 29;
pub const KEY_NUM_1: i32 = 30;
pub const KEY_NUM_2: i32 = 31;
pub const KEY_NUM_3: i32 = 32;
pub const KEY_NUM_4: i32 = 33;
pub const KEY_NUM_5: i32 = 34;
pub const KEY_NUM_6: i32 = 35;
pub const KEY_NUM_7: i32 = 36;
pub const KEY_NUM_8: i32 = 37;
pub const KEY_NUM_9: i32 = 38;
pub const KEY_NUM_0: i32 = 39;
pub const KEY_RETURN: i32 = 40;
pub const KEY_ESCAPE: i32 = 41;
pub const KEY_BACKSPACE: i32 = 42;
pub const KEY_TAB: i32 = 43;
pub const KEY_SPACE: i32 = 44;
pub const KEY_MINUS: i32 = 45;
pub const KEY_EQUALS: i32 = 46;
pub const KEY_LEFT_BRACKET: i32 = 47;
pub const KEY_RIGHT_BRACKET: i32 = 48;
pub const KEY_BACKSLASH: i32 = 49;
pub const KEY_SEMICOLON: i32 = 51;
pub const KEY_APOSTROPHE: i32 = 52;
pub const KEY_GRAVE: i32 = 53;
pub const KEY_COMMA: i32 = 54;
pub const KEY_PERIOD: i32 = 55;
pub const KEY_SLASH: i32 = 56;
pub const KEY_F1: i32 = 58;
pub const KEY_F3: i32 = 60;
pub const KEY_F5: i32 = 62;
pub const KEY_F7: i32 = 64;
pub const KEY_PAUSE: i32 = 72;
pub const KEY_INSERT: i32 = 73;
pub const KEY_HOME: i32 = 74;
pub const KEY_DELETE: i32 = 76;
pub const KEY_RIGHT: i32 = 79;
pub const KEY_DOWN: i32 = 81;
pub const KEY_LCTRL: i32 = 224;
pub const KEY_LSHIFT: i32 = 225;
pub const KEY_RSHIFT: i32 = 229;

/// The switch matrix: the host key wired at a row and a column. The comment
/// on each line names the C64 key that sits there. Outside the matrix there
/// is no key, written as -1.
pub open spec fn spec_matrix(row: u8, col: u8) -> i32 {
    match (row, col) {
        // Del
        (0, 0) => KEY_BACKSPACE,
        // Return
        (0, 1) => KEY_RETURN,
        // cursor right
        (0, 2) => KEY_RIGHT,
        // F7
        (0, 3) => KEY_F7,
        // F1
        (0, 4) => KEY_F1,
        // F3
        (0, 5) => KEY_F3,
        // F5
        (0, 6) => KEY_F5,
        // cursor down
        (0, 7) => KEY_DOWN,
        // 3
        (1, 0) => KEY_NUM_3,
        // W
        (1, 1) => KEY_W,
        // A
        (1, 2) => KEY_A,
        // 4
        (1, 3) => KEY_NUM_4,
        // Z
        (1, 4) => KEY_Z,
        // S
        (1, 5) => KEY_S,
        // E
        (1, 6) => KEY_E,
        // left Shift
        (1, 7) => KEY_LSHIFT,
        // 5
        (2, 0) => KEY_NUM_5,
        // R
        (2, 1) => KEY_R,
        // D
        (2, 2) => KEY_D,
        // 6
        (2, 3) => KEY_NUM_6,
        // C
        (2, 4) => KEY_C,
        // F
        (2, 5) => KEY_F,
        // T
        (2, 6) => KEY_T,
        // X
        (2, 7) => KEY_X,
        // 7
        (3, 0) => KEY_NUM_7,
        // Y
        (3, 1) => KEY_Y,
        // G
        (3, 2) => KEY_G,
        // 8
        (3, 3) => KEY_NUM_8,
        // B
        (3, 4) => KEY_B,
        // H
        (3, 5) => KEY_H,
        // U
        (3, 6) => KEY_U,
        // V
        (3, 7) => KEY_V,
        // 9
        (4, 0) => KEY_NUM_9,
        // I
        (4, 1) => KEY_I,
        // J
        (4, 2) => KEY_J,
        // 0
        (4, 3) => KEY_NUM_0,
        // M
        (4, 4) => KEY_M,
        // K
        (4, 5) => KEY_K,
        // O
        (4, 6) => KEY_O,
        // N
        (4, 7) => KEY_N,
        // +
        (5, 0) => KEY_MINUS,
        // P
        (5, 1) => KEY_P,
        // L
        (5, 2) => KEY_L,
        // -
        (5, 3) => KEY_EQUALS,
        // .
        (5, 4) => KEY_PERIOD,
        // :
        (5, 5) => KEY_SEMICOLON,
        // @
        (5, 6) => KEY_LEFT_BRACKET,
        // ,
        (5, 7) => KEY_COMMA,
        // pound
        (6, 0) => KEY_INSERT,
        // *
        (6, 1) => KEY_RIGHT_BRACKET,
        // ;
        (6, 2) => KEY_APOSTROPHE,
        // Home
        (6, 3) => KEY_HOME,
        // right Shift
        (6, 4) => KEY_RSHIFT,
        // =
        (6, 5) => KEY_BACKSLASH,
        // up arrow
        (6, 6) => KEY_DELETE,
        // /
        (6, 7) => KEY_SLASH,
        // 1
        (7, 0) => KEY_NUM_1,
        // left arrow
        (7, 1) => KEY_GRAVE,
        // Ctrl
        (7, 2) => KEY_TAB,
        // 2
        (7, 3) => KEY_NUM_2,
        // Space
        (7, 4) => KEY_SPACE,
        // Commodore
        (7, 5) => KEY_LCTRL,
        // Q
        (7, 6) => KEY_Q,
        // Run/Stop
        (7, 7) => KEY_PAUSE,
        _ => -1i32,
    }
}

/// Whether the column mask selects a row (the mask is taken active-high).
pub open spec fn spec_row_enabled(col_mask: u8, row: u8) -> bool {
    col_mask & (1u8 << row) != 0
}

/// Whether `key` sits in column `col` of a row that the mask selects.
pub open spec fn spec_key_in_column(key: i32, col_mask: u8, col: u8) -> bool {
    ||| spec_row_enabled(col_mask, 0) && spec_matrix(0, col) == key
    ||| spec_row_enabled(col_mask, 1) && spec_matrix(1, col) == key
    ||| spec_row_enabled(col_mask, 2) && spec_matrix(2, col) == key
    ||| spec_row_enabled(col_mask, 3) && spec_matrix(3, col) == key
    ||| spec_row_enabled(col_mask, 4) && spec_matrix(4, col) == key
    ||| spec_row_enabled(col_mask, 5) && spec_matrix(5, col) == key
    ||| spec_row_enabled(col_mask, 6) && spec_matrix(6, col) == key
    ||| spec_row_enabled(col_mask, 7) && spec_matrix(7, col) == key
}

/// Whether some pressed key sits in column `col` of a selected row.
pub open spec fn spec_column_pressed(keys: Seq<i32>, col_mask: u8, col: u8) -> bool {
    exists|k: int| 0 <= k < keys.len() && #[trigger] spec_key_in_column(keys[k], col_mask, col)
}

/// Whether a byte is the scan of the matrix: bit `col` is low exactly where a
/// pressed key sits in that column of a selected row.
pub open spec fn spec_is_scan(r: u8, keys: Seq<i32>, col_mask: u8) -> bool {
    forall|col: u8|
        col < 8 ==> ((r & (1u8 << col) == 0) <==> #[trigger] spec_column_pressed(
            keys,
            col_mask,
            col,
        ))
}

/// The scan of the matrix for the given pressed keys and mask.
pub open spec fn spec_kbd_scancode(keys: Seq<i32>, col_mask: u8) -> u8 {
    choose|r: u8| spec_is_scan(r, keys, col_mask)
}

/// The place of a host key in the matrix, if it has one.
pub fn key_position(key: i32) -> (r: Option<(u8, u8)>)
    ensures
        match r {
            Some((row, col)) => {
                &&& row < 8
                &&& col < 8
                &&& spec_matrix(row, col) == key
                &&& forall|r2: u8, c2: u8|
                    r2 < 8 && c2 < 8 && #[trigger] spec_matrix(r2, c2) == key ==> r2 == row && c2
                        == col
            },
            None => forall|r2: u8, c2: u8| r2 < 8 && c2 < 8 ==> #[trigger] spec_matrix(r2, c2) != key,
        },
{
    match key {
        KEY_A => Some((1, 2)),
        KEY_B => Some((3, 4)),
        KEY_C => Some((2, 4)),
        KEY_D => Some((2, 2)),
        KEY_E => Some((1, 6)),
        KEY_F => Some((2, 5)),
        KEY_G => Some((3, 2)),
        KEY_H => Some((3, 5)),
        KEY_I => Some((4, 1)),
        KEY_J => Some((4, 2)),
        KEY_K => Some((4, 5)),
        KEY_L => Some((5, 2)),
        KEY_M => Some((4, 4)),
        KEY_N => Some((4, 7)),
        KEY_O => Some((4, 6)),
        KEY_P => Some((5, 1)),
        KEY_Q => Some((7, 6)),
        KEY_R => Some((2, 1)),
        KEY_S => Some((1, 5)),
        KEY_T => Some((2, 6)),
        KEY_U => Some((3, 6)),
        KEY_V => Some((3, 7)),
        KEY_W => Some((1, 1)),
        KEY_X => Some((2, 7)),
        KEY_Y => Some((3, 1)),
        KEY_Z => Some((1, 4)),
        KEY_NUM_1 => Some((7, 0)),
        KEY_NUM_2 => Some((7, 3)),
        KEY_NUM_3 => Some((1, 0)),
        KEY_NUM_4 => Some((1, 3)),
        KEY_NUM_5 => Some((2, 0)),
        KEY_NUM_6 => Some((2, 3)),
        KEY_NUM_7 => Some((3, 0)),
        KEY_NUM_8 => Some((3, 3)),
        KEY_NUM_9 => Some((4, 0)),
        KEY_NUM_0 => Some((4, 3)),
        KEY_RETURN => Some((0, 1)),
        KEY_BACKSPACE => Some((0, 0)),
        KEY_TAB => Some((7, 2)),
        KEY_SPACE => Some((7, 4)),
        KEY_MINUS => Some((5, 0)),
        KEY_EQUALS => Some((5, 3)),
        KEY_LEFT_BRACKET => Some((5, 6)),
        KEY_RIGHT_BRACKET => Some((6, 1)),
        KEY_BACKSLASH => Some((6, 5)),
        KEY_SEMICOLON => Some((5, 5)),
        KEY_APOSTROPHE => Some((6, 2)),
        KEY_GRAVE => Some((7, 1)),
        KEY_COMMA => Some((5, 7)),
        KEY_PERIOD => Some((5, 4)),
        KEY_SLASH => Some((6, 7)),
        KEY_F1 => Some((0, 4)),
        KEY_F3 => Some((0, 5)),
        KEY_F5 => Some((0, 6)),
        KEY_F7 => Some((0, 3)),
        KEY_PAUSE => Some((7, 7)),
        KEY_INSERT => Some((6, 0)),
        KEY_HOME => Some((6, 3)),
        KEY_DELETE => Some((6, 6)),
        KEY_RIGHT => Some((0, 2)),
        KEY_DOWN => Some((0, 7)),
        KEY_LCTRL => Some((7, 5)),
        KEY_LSHIFT => Some((1, 7)),
        KEY_RSHIFT => Some((6, 4)),
        _ => None,
    }
}

proof fn lemma_or_bit(val: u8, c: u8, col: u8)
    requires
        c < 8,
        col < 8,
    ensures
        ((val | (1u8 << c)) & (1u8 << col) != 0) <==> (val & (1u8 << col) != 0 || c == col),
{
    assert(((val | (1u8 << c)) & (1u8 << col) != 0) <==> (val & (1u8 << col) != 0 || c == col))
        by (bit_vector)
        requires
            c < 8,
            col < 8,
    ;
}

proof fn lemma_not_bit(val: u8, col: u8)
    requires
        col < 8,
    ensures
        ((!val) & (1u8 << col) == 0) <==> (val & (1u8 << col) != 0),
{
    assert(((!val) & (1u8 << col) == 0) <==> (val & (1u8 << col) != 0)) by (bit_vector)
        requires
            col < 8,
    ;
}

proof fn lemma_pressed_step(keys: Seq<i32>, k: int, col_mask: u8, col: u8)
    requires
        0 <= k < keys.len(),
    ensures
        spec_column_pressed(keys.take(k + 1), col_mask, col) <==> (spec_column_pressed(
            keys.take(k),
            col_mask,
            col,
        ) || spec_key_in_column(keys[k], col_mask, col)),
{
    let a = keys.take(k);
    let b = keys.take(k + 1);
    if spec_column_pressed(b, col_mask, col) {
        let j = choose|j: int| 0 <= j < b.len() && #[trigger] spec_key_in_column(b[j], col_mask, col);
        if j < k {
            assert(a[j] == b[j]);
            assert(spec_key_in_column(a[j], col_mask, col));
        } else {
            assert(b[j] == keys[k]);
        }
    }
    if spec_column_pressed(a, col_mask, col) {
        let j = choose|j: int| 0 <= j < a.len() && #[trigger] spec_key_in_column(a[j], col_mask, col);
        assert(a[j] == b[j]);
        assert(spec_key_in_column(b[j], col_mask, col));
    }
    if spec_key_in_column(keys[k], col_mask, col) {
        assert(b[k] == keys[k]);
        assert(spec_key_in_column(b[k], col_mask, col));
    }
}

/// Scans the keyboard matrix. `col_mask` selects rows, one bit each, and the
/// result has a low bit for each column in which a pressed key sits in a
/// selected row. With no key pressed every bit is high.
pub fn kbd_scancode(keys: &Vec<i32>, col_mask: u8) -> (r: u8)
    ensures
        spec_is_scan(r, keys@, col_mask),
        r == spec_kbd_scancode(keys@, col_mask),
        keys@.len() == 0 ==> r == 0xFF,
{
    let mut val: u8 = 0;
    let mut k: usize = 0;
    assert(forall|col: u8| col < 8 ==> (0u8 & (1u8 << col) == 0)) by (bit_vector);
    while k < keys.len()
        invariant
            k <= keys.len(),
            k == 0 ==> val == 0,
            forall|col: u8|
                col < 8 ==> ((val & (1u8 << col) != 0) <==> #[trigger] spec_column_pressed(
                    keys@.take(k as int),
                    col_mask,
                    col,
                )),
        decreases keys.len() - k,
    {
        let key = keys[k];
        let ghost old_val = val;
        let pos = key_position(key);
        let mut hit: bool = false;
        let mut hit_col: u8 = 0;
        match pos {
            Some((row, col)) => {
                if col_mask & (1u8 << row) != 0 {
                    val = val | (1u8 << col);
                    hit = true;
                    hit_col = col;
                }
            },
            None => {},
        }
        proof {
            assert forall|col: u8| col < 8 implies ((val & (1u8 << col) != 0)
                <==> #[trigger] spec_column_pressed(keys@.take(k as int + 1), col_mask, col)) by {
                lemma_pressed_step(keys@, k as int, col_mask, col);
                if hit {
                    lemma_or_bit(old_val, hit_col, col);
                }
                assert(spec_key_in_column(key, col_mask, col) <==> (hit && hit_col == col));
            }
        }
        k = k + 1;
    }
    proof {
        assert(keys@.take(k as int) =~= keys@);
        assert forall|col: u8| col < 8 implies (((!val) & (1u8 << col) == 0)
            <==> #[trigger] spec_column_pressed(keys@, col_mask, col)) by {
            lemma_not_bit(val, col);
        }
        assert(!0u8 == 0xFFu8) by (bit_vector);
        assert(spec_is_scan(!val, keys@, col_mask));
        lemma_scan_unique(!val, spec_kbd_scancode(keys@, col_mask), keys@, col_mask);
    }
    !val
}

/// A scan is determined by the pressed keys and the mask: two bytes that are
/// both scans of the same matrix state are equal.
pub proof fn lemma_scan_unique(r1: u8, r2: u8, keys: Seq<i32>, col_mask: u8)
    requires
        spec_is_scan(r1, keys, col_mask),
        spec_is_scan(r2, keys, col_mask),
    ensures
        r1 == r2,
{
    assert(spec_column_pressed(keys, col_mask, 0u8) <==> (r1 & (1u8 << 0u8) == 0));
    assert(spec_column_pressed(keys, col_mask, 0u8) <==> (r2 & (1u8 << 0u8) == 0));
    assert(spec_column_pressed(keys, col_mask, 1u8) <==> (r1 & (1u8 << 1u8) == 0));
    assert(spec_column_pressed(keys, col_mask, 1u8) <==> (r2 & (1u8 << 1u8) == 0));
    assert(spec_column_pressed(keys, col_mask, 2u8) <==> (r1 & (1u8 << 2u8) == 0));
    assert(spec_column_pressed(keys, col_mask, 2u8) <==> (r2 & (1u8 << 2u8) == 0));
    assert(spec_column_pressed(keys, col_mask, 3u8) <==> (r1 & (1u8 << 3u8) == 0));
    assert(spec_column_pressed(keys, col_mask, 3u8) <==> (r2 & (1u8 << 3u8) == 0));
    assert(spec_column_pressed(keys, col_mask, 4u8) <==> (r1 & (1u8 << 4u8) == 0));
    assert(spec_column_pressed(keys, col_mask, 4u8) <==> (r2 & (1u8 << 4u8) == 0));
    assert(spec_column_pressed(keys, col_mask, 5u8) <==> (r1 & (1u8 << 5u8) == 0));
    assert(spec_column_pressed(keys, col_mask, 5u8) <==> (r2 & (1u8 << 5u8) == 0));
    assert(spec_column_pressed(keys, col_mask, 6u8) <==> (r1 & (1u8 << 6u8) == 0));
    assert(spec_column_pressed(keys, col_mask, 6u8) <==> (r2 & (1u8 << 6u8) == 0));
    assert(spec_column_pressed(keys, col_mask, 7u8) <==> (r1 & (1u8 << 7u8) == 0));
    assert(spec_column_pressed(keys, col_mask, 7u8) <==> (r2 & (1u8 << 7u8) == 0));
    assert(r1 == r2) by (bit_vector)
        requires
            (r1 & (1u8 << 0u8) == 0) <==> (r2 & (1u8 << 0u8) == 0),
            (r1 & (1u8 << 1u8) == 0) <==> (r2 & (1u8 << 1u8) == 0),
            (r1 & (1u8 << 2u8) == 0) <==> (r2 & (1u8 << 2u8) == 0),
            (r1 & (1u8 << 3u8) == 0) <==> (r2 & (1u8 << 3u8) == 0),
            (r1 & (1u8 << 4u8) == 0) <==> (r2 & (1u8 << 4u8) == 0),
            (r1 & (1u8 << 5u8) == 0) <==> (r2 & (1u8 << 5u8) == 0),
            (r1 & (1u8 << 6u8) == 0) <==> (r2 & (1u8 << 6u8) == 0),
            (r1 & (1u8 << 7u8) == 0) <==> (r2 & (1u8 << 7u8) == 0),
    ;
}

/// With no key pressed the scan is $FF, whatever the mask.
pub proof fn lemma_scan_no_keys(r: u8, col_mask: u8)
    requires
        spec_is_scan(r, Seq::<i32>::empty(), col_mask),
    ensures
        r == 0xFF,
{
    assert(forall|col: u8| col < 8 ==> (0xFFu8 & (1u8 << col) != 0)) by (bit_vector);
    assert(spec_is_scan(0xFFu8, Seq::<i32>::empty(), col_mask));
    lemma_scan_unique(r, 0xFF, Seq::<i32>::empty(), col_mask);
}

} // verus!
