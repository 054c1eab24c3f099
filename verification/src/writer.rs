//! The console writer: a cursor-tracking writer that maps a character
//! stream onto the display surface, substituting glyphs, wrapping at
//! the end of the bottom row and scrolling on every new line.

use vstd::prelude::*;
use vstd::string::StrSliceExecFns;

use crate::cell::ScreenChar;
use crate::colour::ColourCode;
use crate::surface::{buffer_cells, grid_wf, Buffer, BUFFER_HEIGHT, BUFFER_WIDTH};

verus! {

/// The newline control code.
pub const NEWLINE: u8 = 0x0A;

/// The lowest glyph code the writer passes through unchanged.
pub const PRINTABLE_MIN: u8 = 0x20;

/// The highest glyph code the writer passes through unchanged.
pub const PRINTABLE_MAX: u8 = 0x73;

/// The glyph shown in place of any character the device cannot display.
pub const REPLACEMENT_GLYPH: u8 = 0xFE;

/// A blank cell: a space in the given colour.
pub open spec fn blank_cell(colour: ColourCode) -> ScreenChar {
    ScreenChar { ascii_character: PRINTABLE_MIN, colour_code: colour }
}

/// A full row of blank cells in the given colour.
pub open spec fn blank_row(colour: ColourCode) -> Seq<ScreenChar> {
    Seq::new(BUFFER_WIDTH as nat, |c: int| blank_cell(colour))
}

/// The grid after one scroll: each row takes the previous contents of
/// the row below it, and the bottom row becomes blank in the given
/// colour.
pub open spec fn scrolled(grid: Seq<Seq<ScreenChar>>, colour: ColourCode) -> Seq<Seq<ScreenChar>> {
    Seq::new(
        BUFFER_HEIGHT as nat,
        |r: int|
            if r < BUFFER_HEIGHT as int - 1 {
                grid[r + 1]
            } else {
                blank_row(colour)
            },
    )
}

/// Whether the device can display this character as itself.
pub open spec fn is_printable(c: char) -> bool {
    PRINTABLE_MIN <= c as u32 && c as u32 <= PRINTABLE_MAX
}

/// The glyph code the writer forwards for an input character:
/// printable characters and newline pass through; every other
/// character (control codes, non-ASCII) becomes the replacement glyph.
pub open spec fn glyph_for(c: char) -> u8 {
    if c == '\n' {
        NEWLINE
    } else if is_printable(c) {
        (c as u32) as u8
    } else {
        REPLACEMENT_GLYPH
    }
}

/// The column and grid after the writer takes one byte: a newline
/// scrolls and returns the cursor to column 0; any other byte is placed
/// on the bottom row at the cursor, after a scroll if the cursor had
/// already passed the last column.
pub open spec fn byte_step(
    col: int,
    grid: Seq<Seq<ScreenChar>>,
    colour: ColourCode,
    byte: u8,
) -> (int, Seq<Seq<ScreenChar>>) {
    if byte == NEWLINE {
        (0, scrolled(grid, colour))
    } else {
        let col0: int = if col >= BUFFER_WIDTH as int {
            0
        } else {
            col
        };
        let grid0 = if col >= BUFFER_WIDTH as int {
            scrolled(grid, colour)
        } else {
            grid
        };
        let cell = ScreenChar { ascii_character: byte, colour_code: colour };
        (
            col0 + 1,
            grid0.update(
                BUFFER_HEIGHT as int - 1,
                grid0[BUFFER_HEIGHT as int - 1].update(col0, cell),
            ),
        )
    }
}

/// The column and grid after the writer takes a whole character
/// sequence, one glyph at a time.
pub open spec fn chars_step(
    col: int,
    grid: Seq<Seq<ScreenChar>>,
    colour: ColourCode,
    s: Seq<char>,
) -> (int, Seq<Seq<ScreenChar>>)
    decreases s.len(),
{
    if s.len() == 0 {
        (col, grid)
    } else {
        let st = byte_step(col, grid, colour, glyph_for(s[0]));
        chars_step(st.0, st.1, colour, s.drop_first())
    }
}

/// The stateful console writer: the cursor's column on the bottom row,
/// the active colour, and the sole handle to the display surface.
pub struct Writer {
    pub column_position: usize,
    pub colour_code: ColourCode,
    pub buffer: Buffer,
}

impl Writer {
    /// The cells currently on the surface this writer owns.
    pub open spec fn grid(self) -> Seq<Seq<ScreenChar>> {
        buffer_cells(self.buffer)
    }

    /// A writer is well formed when its cursor has not gone past the
    /// position one beyond the last column and its surface has the
    /// device's dimensions.
    pub open spec fn wf(self) -> bool {
        &&& self.column_position <= BUFFER_WIDTH
        &&& grid_wf(self.grid())
    }

    /// Takes sole possession of a display surface and starts writing at
    /// column 0 of the bottom row, in the given colour.
    pub fn new(buffer: Buffer, colour_code: ColourCode) -> (w: Writer)
        requires
            grid_wf(buffer_cells(buffer)),
        ensures
            w.wf(),
            w.column_position == 0,
            w.colour_code == colour_code,
            w.grid() == buffer_cells(buffer),
    {
        Writer { column_position: 0, colour_code, buffer }
    }

    /// Scrolls: row `r` takes the previous contents of row `r + 1` for
    /// every row but the last, the bottom row is cleared to blanks in
    /// the active colour, and the cursor returns to column 0.
    pub fn new_line(&mut self)
        requires
            old(self).wf(),
        ensures
            final(self).wf(),
            final(self).colour_code == old(self).colour_code,
            final(self).column_position == 0,
            final(self).grid() == scrolled(old(self).grid(), old(self).colour_code),
    {
        let ghost g0 = self.grid();
        let mut row: usize = 1;
        while row < BUFFER_HEIGHT
            invariant
                1 <= row <= BUFFER_HEIGHT,
                self.colour_code == old(self).colour_code,
                grid_wf(g0),
                g0 == old(self).grid(),
                grid_wf(self.grid()),
                forall|r: int| 0 <= r < row - 1 ==> #[trigger] self.grid()[r] == g0[r + 1],
                forall|r: int|
                    row - 1 <= r < BUFFER_HEIGHT ==> #[trigger] self.grid()[r] == g0[r],
            decreases BUFFER_HEIGHT - row,
        {
            let mut col: usize = 0;
            while col < BUFFER_WIDTH
                invariant
                    1 <= row < BUFFER_HEIGHT,
                    0 <= col <= BUFFER_WIDTH,
                    self.colour_code == old(self).colour_code,
                    grid_wf(g0),
                    g0 == old(self).grid(),
                    grid_wf(self.grid()),
                    forall|r: int| 0 <= r < row - 1 ==> #[trigger] self.grid()[r] == g0[r + 1],
                    forall|r: int|
                        row <= r < BUFFER_HEIGHT ==> #[trigger] self.grid()[r] == g0[r],
                    forall|c: int|
                        0 <= c < col ==> #[trigger] self.grid()[row - 1][c] == g0[row as int][c],
                    forall|c: int|
                        col <= c < BUFFER_WIDTH ==> #[trigger] self.grid()[row - 1][c] == g0[row
                            - 1][c],
                decreases BUFFER_WIDTH - col,
            {
                let cell = self.buffer.get(row, col);
                self.buffer.set(row - 1, col, cell);
                col += 1;
            }
            proof {
                assert(self.grid()[row - 1] =~= g0[row as int]);
            }
            row += 1;
        }
        let blank = ScreenChar {
            ascii_character: PRINTABLE_MIN,
            colour_code: self.colour_code,
        };
        let mut col: usize = 0;
        while col < BUFFER_WIDTH
            invariant
                0 <= col <= BUFFER_WIDTH,
                self.colour_code == old(self).colour_code,
                blank == blank_cell(old(self).colour_code),
                grid_wf(g0),
                g0 == old(self).grid(),
                grid_wf(self.grid()),
                forall|r: int|
                    0 <= r < BUFFER_HEIGHT - 1 ==> #[trigger] self.grid()[r] == g0[r + 1],
                forall|c: int|
                    0 <= c < col ==> #[trigger] self.grid()[BUFFER_HEIGHT - 1][c] == blank_cell(
                        old(self).colour_code,
                    ),
                forall|c: int|
                    col <= c < BUFFER_WIDTH ==> #[trigger] self.grid()[BUFFER_HEIGHT - 1][c]
                        == g0[BUFFER_HEIGHT - 1][c],
            decreases BUFFER_WIDTH - col,
        {
            self.buffer.set(BUFFER_HEIGHT - 1, col, blank);
            col += 1;
        }
        self.column_position = 0;
        proof {
            assert(self.grid() =~~= scrolled(g0, old(self).colour_code));
        }
    }

    /// Writes one byte. A newline scrolls and returns the cursor to
    /// column 0 without placing a glyph. Any other byte is placed on
    /// the bottom row at the cursor, in the active colour; if the
    /// cursor had already passed the last column, the writer scrolls
    /// first, so the wrap happens only when the next byte arrives.
    pub fn write_byte(&mut self, byte: u8)
        requires
            old(self).wf(),
        ensures
            final(self).wf(),
            final(self).colour_code == old(self).colour_code,
            final(self).column_position as int == byte_step(
                old(self).column_position as int,
                old(self).grid(),
                old(self).colour_code,
                byte,
            ).0,
            final(self).grid() == byte_step(
                old(self).column_position as int,
                old(self).grid(),
                old(self).colour_code,
                byte,
            ).1,
    {
        if byte == NEWLINE {
            self.new_line();
        } else {
            if self.column_position >= BUFFER_WIDTH {
                self.new_line();
            }
            let row = BUFFER_HEIGHT - 1;
            let col = self.column_position;
            let colour_code = self.colour_code;
            self.buffer.set(row, col, ScreenChar { ascii_character: byte, colour_code });
            self.column_position = col + 1;
        }
    }

    /// Writes a string, one character at a time: printable characters
    /// and newline are forwarded as their own codes, every other
    /// character is shown as the replacement glyph, so the surface
    /// never holds an unmapped device code.
    pub fn write_string(&mut self, s: &str)
        requires
            old(self).wf(),
        ensures
            final(self).wf(),
            final(self).colour_code == old(self).colour_code,
            final(self).column_position as int == chars_step(
                old(self).column_position as int,
                old(self).grid(),
                old(self).colour_code,
                s@,
            ).0,
            final(self).grid() == chars_step(
                old(self).column_position as int,
                old(self).grid(),
                old(self).colour_code,
                s@,
            ).1,
    {
        let ghost col0 = old(self).column_position as int;
        let ghost g0 = old(self).grid();
        let ghost colour = old(self).colour_code;
        let n = s.unicode_len();
        let mut i: usize = 0;
        while i < n
            invariant
                0 <= i <= n,
                n == s@.len(),
                self.wf(),
                self.colour_code == colour,
                self.column_position as int == chars_step(col0, g0, colour, s@.take(i as int)).0,
                self.grid() == chars_step(col0, g0, colour, s@.take(i as int)).1,
            decreases n - i,
        {
            let c = s.get_char(i);
            let byte: u8 = if c == '\n' {
                NEWLINE
            } else {
                let u = c as u32;
                if PRINTABLE_MIN as u32 <= u && u <= PRINTABLE_MAX as u32 {
                    u as u8
                } else {
                    REPLACEMENT_GLYPH
                }
            };
            proof {
                assert(byte == glyph_for(s@[i as int]));
                lemma_chars_step_push(col0, g0, colour, s@.take(i as int), s@[i as int]);
                assert(s@.take(i as int).push(s@[i as int]) =~= s@.take(i + 1));
            }
            self.write_byte(byte);
            i += 1;
        }
        proof {
            assert(s@.take(n as int) =~= s@);
        }
    }
}

/// Taking a sequence's characters one glyph at a time and then one
/// more is the same as taking the extended sequence at once.
pub proof fn lemma_chars_step_push(
    col: int,
    grid: Seq<Seq<ScreenChar>>,
    colour: ColourCode,
    s: Seq<char>,
    c: char,
)
    ensures
        chars_step(col, grid, colour, s.push(c)) == ({
            let st = chars_step(col, grid, colour, s);
            byte_step(st.0, st.1, colour, glyph_for(c))
        }),
    decreases s.len(),
{
    if s.len() == 0 {
        let st0 = byte_step(col, grid, colour, glyph_for(c));
        assert(s.push(c)[0] == c);
        assert(s.push(c).drop_first() =~= Seq::<char>::empty());
        assert(chars_step(st0.0, st0.1, colour, Seq::<char>::empty()) == st0);
        assert(chars_step(col, grid, colour, s) == (col, grid));
    } else {
        assert(s.push(c)[0] == s[0]);
        assert(s.push(c).drop_first() =~= s.drop_first().push(c));
        let st = byte_step(col, grid, colour, glyph_for(s[0]));
        lemma_chars_step_push(st.0, st.1, colour, s.drop_first(), c);
    }
}

} // verus!
