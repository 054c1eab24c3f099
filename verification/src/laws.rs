//! Laws of the console writer, stated over its model and proved once
//! for every input: wrap happens only before the next character, and
//! the active colour stamps everything the writer touches.

use vstd::prelude::*;

use crate::cell::ScreenChar;
use crate::colour::ColourCode;
use crate::surface::{grid_wf, BUFFER_HEIGHT, BUFFER_WIDTH};
use crate::writer::{
    blank_cell, byte_step, chars_step, glyph_for, is_printable, lemma_chars_step_push, scrolled,
    NEWLINE, PRINTABLE_MAX, PRINTABLE_MIN,
};

verus! {

/// Whether `cell` stands somewhere on `grid`.
pub open spec fn cell_was_on(grid: Seq<Seq<ScreenChar>>, cell: ScreenChar) -> bool {
    exists|r: int, c: int|
        0 <= r < grid.len() && 0 <= c < grid[r].len() && grid[r][c] == cell
}

/// Every cell of `after` either already stood somewhere on `before` or
/// carries the given colour byte.
pub open spec fn colours_from(
    after: Seq<Seq<ScreenChar>>,
    before: Seq<Seq<ScreenChar>>,
    colour: ColourCode,
) -> bool {
    forall|r: int, c: int|
        0 <= r < BUFFER_HEIGHT && 0 <= c < BUFFER_WIDTH ==> (#[trigger] after[r][c]).colour_code
            == colour || cell_was_on(before, after[r][c])
}

/// One byte keeps the grid's dimensions, keeps the cursor within the
/// row, and touches the surface only with cells of the active colour
/// or cells that already stood on it.
proof fn lemma_byte_step_preserves(col: int, grid: Seq<Seq<ScreenChar>>, colour: ColourCode, byte: u8)
    requires
        grid_wf(grid),
        0 <= col <= BUFFER_WIDTH,
    ensures
        ({
            let st = byte_step(col, grid, colour, byte);
            &&& 0 <= st.0 <= BUFFER_WIDTH
            &&& grid_wf(st.1)
            &&& colours_from(st.1, grid, colour)
        }),
{
    let st = byte_step(col, grid, colour, byte);
    let sc = scrolled(grid, colour);
    assert(grid_wf(sc));
    assert(colours_from(sc, grid, colour)) by {
        assert forall|r: int, c: int|
            0 <= r < BUFFER_HEIGHT && 0 <= c < BUFFER_WIDTH implies (#[trigger] sc[r][c]).colour_code
            == colour || cell_was_on(grid, sc[r][c]) by {
            if r < BUFFER_HEIGHT as int - 1 {
                assert(sc[r][c] == grid[r + 1][c]);
                assert(0 <= r + 1 < grid.len() && 0 <= c < grid[r + 1].len());
            } else {
                assert(sc[r][c] == blank_cell(colour));
            }
        }
    }
    if byte != NEWLINE {
        let grid0 = if col >= BUFFER_WIDTH as int {
            sc
        } else {
            grid
        };
        assert(colours_from(grid0, grid, colour)) by {
            if col < BUFFER_WIDTH as int {
                assert forall|r: int, c: int|
                    0 <= r < BUFFER_HEIGHT && 0 <= c < BUFFER_WIDTH implies (#[trigger] grid0[r][c]).colour_code
                    == colour || cell_was_on(grid, grid0[r][c]) by {
                    assert(0 <= r < grid.len() && 0 <= c < grid[r].len());
                }
            }
        }
        assert forall|r: int, c: int|
            0 <= r < BUFFER_HEIGHT && 0 <= c < BUFFER_WIDTH implies (#[trigger] st.1[r][c]).colour_code
            == colour || cell_was_on(grid, st.1[r][c]) by {
            if !(r == BUFFER_HEIGHT as int - 1 && c == (if col >= BUFFER_WIDTH as int {
                0int
            } else {
                col
            })) {
                assert(st.1[r][c] == grid0[r][c]);
            }
        }
    }
}

/// Cells that come from a grid whose own cells come from an older grid
/// come from the older grid too.
proof fn lemma_colours_from_trans(
    g2: Seq<Seq<ScreenChar>>,
    g1: Seq<Seq<ScreenChar>>,
    g0: Seq<Seq<ScreenChar>>,
    colour: ColourCode,
)
    requires
        grid_wf(g1),
        colours_from(g2, g1, colour),
        colours_from(g1, g0, colour),
    ensures
        colours_from(g2, g0, colour),
{
    assert forall|r: int, c: int|
        0 <= r < BUFFER_HEIGHT && 0 <= c < BUFFER_WIDTH implies (#[trigger] g2[r][c]).colour_code
        == colour || cell_was_on(g0, g2[r][c]) by {
        if g2[r][c].colour_code != colour {
            let (r0, c0) = choose|r0: int, c0: int|
                0 <= r0 < g1.len() && 0 <= c0 < g1[r0].len() && g1[r0][c0] == g2[r][c];
            assert(0 <= r0 < BUFFER_HEIGHT && 0 <= c0 < BUFFER_WIDTH);
            assert(g1[r0][c0].colour_code == colour || cell_was_on(g0, g1[r0][c0]));
        }
    }
}

/// A whole character sequence keeps the grid's dimensions and the
/// cursor's bound, and leaves only cells that carry the active colour
/// or already stood on the grid.
pub proof fn lemma_chars_step_preserves(
    col: int,
    grid: Seq<Seq<ScreenChar>>,
    colour: ColourCode,
    s: Seq<char>,
)
    requires
        grid_wf(grid),
        0 <= col <= BUFFER_WIDTH,
    ensures
        ({
            let st = chars_step(col, grid, colour, s);
            &&& 0 <= st.0 <= BUFFER_WIDTH
            &&& grid_wf(st.1)
            &&& colours_from(st.1, grid, colour)
        }),
    decreases s.len(),
{
    let st = chars_step(col, grid, colour, s);
    if s.len() == 0 {
        assert forall|r: int, c: int|
            0 <= r < BUFFER_HEIGHT && 0 <= c < BUFFER_WIDTH implies (#[trigger] st.1[r][c]).colour_code
            == colour || cell_was_on(grid, st.1[r][c]) by {
            assert(0 <= r < grid.len() && 0 <= c < grid[r].len());
        }
    } else {
        let st1 = byte_step(col, grid, colour, glyph_for(s[0]));
        lemma_byte_step_preserves(col, grid, colour, glyph_for(s[0]));
        lemma_chars_step_preserves(st1.0, st1.1, colour, s.drop_first());
        lemma_colours_from_trans(st.1, st1.1, grid, colour);
    }
}

/// Law: idempotent colour state. Writing two strings one after the
/// other without changing the active colour stamps every cell either
/// string writes with that one colour byte: afterwards each cell of
/// the surface either already stood there before the first string was
/// written or carries the active colour.
pub proof fn lemma_idempotent_colour_state(
    col: int,
    grid: Seq<Seq<ScreenChar>>,
    colour: ColourCode,
    s1: Seq<char>,
    s2: Seq<char>,
)
    requires
        grid_wf(grid),
        0 <= col <= BUFFER_WIDTH,
    ensures
        ({
            let st1 = chars_step(col, grid, colour, s1);
            let st2 = chars_step(st1.0, st1.1, colour, s2);
            colours_from(st2.1, grid, colour)
        }),
{
    let st1 = chars_step(col, grid, colour, s1);
    let st2 = chars_step(st1.0, st1.1, colour, s2);
    lemma_chars_step_preserves(col, grid, colour, s1);
    lemma_chars_step_preserves(st1.0, st1.1, colour, s2);
    lemma_colours_from_trans(st2.1, st1.1, grid, colour);
}

/// Law: printable glyphs that fit on the rest of the bottom row are
/// placed left to right from the cursor with no scroll: every row
/// above keeps its contents, the bottom row changes exactly on the
/// written columns, and the cursor moves one column per glyph.
pub proof fn lemma_fill_bottom_row(
    col: int,
    grid: Seq<Seq<ScreenChar>>,
    colour: ColourCode,
    s: Seq<char>,
)
    requires
        grid_wf(grid),
        0 <= col,
        col + s.len() <= BUFFER_WIDTH,
        forall|i: int| 0 <= i < s.len() ==> is_printable(#[trigger] s[i]),
    ensures
        ({
            let st = chars_step(col, grid, colour, s);
            &&& st.0 == col + s.len()
            &&& grid_wf(st.1)
            &&& forall|r: int| 0 <= r < BUFFER_HEIGHT - 1 ==> #[trigger] st.1[r] == grid[r]
            &&& forall|j: int|
                0 <= j < BUFFER_WIDTH && !(col <= j < col + s.len())
                    ==> #[trigger] st.1[BUFFER_HEIGHT - 1][j] == grid[BUFFER_HEIGHT - 1][j]
            &&& forall|j: int|
                col <= j < col + s.len() ==> #[trigger] st.1[BUFFER_HEIGHT - 1][j] == (ScreenChar {
                    ascii_character: glyph_for(s[j - col]),
                    colour_code: colour,
                })
        }),
    decreases s.len(),
{
    let st = chars_step(col, grid, colour, s);
    if s.len() > 0 {
        let glyph = glyph_for(s[0]);
        assert(is_printable(s[0]));
        assert(PRINTABLE_MIN <= glyph <= PRINTABLE_MAX);
        let st1 = byte_step(col, grid, colour, glyph);
        assert(grid_wf(st1.1));
        lemma_fill_bottom_row(col + 1, st1.1, colour, s.drop_first());
        assert forall|j: int| col <= j < col + s.len() implies #[trigger] st.1[BUFFER_HEIGHT - 1][j]
            == (ScreenChar { ascii_character: glyph_for(s[j - col]), colour_code: colour }) by {
            if j == col {
                assert(st.1[BUFFER_HEIGHT - 1][j] == st1.1[BUFFER_HEIGHT - 1][j]);
            } else {
                assert(s.drop_first()[j - (col + 1)] == s[j - col]);
            }
        }
    }
}

/// Law: wrap before overflow. Writing exactly one full row of
/// printable characters from column 0 fills every column of the bottom
/// row without triggering a scroll; one further printable character
/// triggers exactly one scroll before it is placed at column 0 of the
/// fresh bottom row.
pub proof fn lemma_wrap_before_overflow(
    grid: Seq<Seq<ScreenChar>>,
    colour: ColourCode,
    s: Seq<char>,
    c: char,
)
    requires
        grid_wf(grid),
        s.len() == BUFFER_WIDTH,
        forall|i: int| 0 <= i < s.len() ==> is_printable(#[trigger] s[i]),
        is_printable(c),
    ensures
        ({
            let st = chars_step(0, grid, colour, s);
            &&& st.0 == BUFFER_WIDTH
            &&& forall|r: int| 0 <= r < BUFFER_HEIGHT - 1 ==> #[trigger] st.1[r] == grid[r]
            &&& forall|j: int|
                0 <= j < BUFFER_WIDTH ==> #[trigger] st.1[BUFFER_HEIGHT - 1][j] == (ScreenChar {
                    ascii_character: glyph_for(s[j]),
                    colour_code: colour,
                })
        }),
        ({
            let st = chars_step(0, grid, colour, s);
            let st2 = chars_step(0, grid, colour, s.push(c));
            &&& st2.0 == 1
            &&& st2.1 == scrolled(st.1, colour).update(
                BUFFER_HEIGHT as int - 1,
                scrolled(st.1, colour)[BUFFER_HEIGHT as int - 1].update(
                    0,
                    ScreenChar { ascii_character: glyph_for(c), colour_code: colour },
                ),
            )
        }),
{
    lemma_fill_bottom_row(0, grid, colour, s);
    lemma_chars_step_push(0, grid, colour, s, c);
    assert(PRINTABLE_MIN <= glyph_for(c) <= PRINTABLE_MAX);
}

} // verus!
