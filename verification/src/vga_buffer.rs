//! Text-mode video driver: a fixed `BUFFER_HEIGHT x BUFFER_WIDTH` grid of
//! colored character cells with a write column on the bottom row. Scrolling
//! makes room; every write lands on the bottom row.
use vstd::prelude::*;
use vstd::string::StringSliceAdditionalSpecFns;

verus! {

/// The standard color palette in VGA text mode.
#[derive(Debug, Clone, Copy, PartialEq, Eq, Structural)]
pub enum Color {
    Black,
    Blue,
    Green,
    Cyan,
    Red,
    Magenta,
    Brown,
    Gray,
    DarkGray,
    LightBlue,
    LightGreen,
    LightCyan,
    LightRed,
    Pink,
    Yellow,
    White,
}

impl Color {
    /// The 4-bit palette index of this color.
    pub open spec fn value_spec(self) -> u8 {
        match self {
            Color::Black => 0,
            Color::Blue => 1,
            Color::Green => 2,
            Color::Cyan => 3,
            Color::Red => 4,
            Color::Magenta => 5,
            Color::Brown => 6,
            Color::Gray => 7,
            Color::DarkGray => 8,
            Color::LightBlue => 9,
            Color::LightGreen => 10,
            Color::LightCyan => 11,
            Color::LightRed => 12,
            Color::Pink => 13,
            Color::Yellow => 14,
            Color::White => 15,
        }
    }

    pub fn value(self) -> (v: u8)
        ensures
            v == self.value_spec(),
            v < 16,
    {
        match self {
            Color::Black => 0,
            Color::Blue => 1,
            Color::Green => 2,
            Color::Cyan => 3,
            Color::Red => 4,
            Color::Magenta => 5,
            Color::Brown => 6,
            Color::Gray => 7,
            Color::DarkGray => 8,
            Color::LightBlue => 9,
            Color::LightGreen => 10,
            Color::LightCyan => 11,
            Color::LightRed => 12,
            Color::Pink => 13,
            Color::Yellow => 14,
            Color::White => 15,
        }
    }
}

/// A combination of a VGA foreground and background color: one byte holding
/// the background index in the high nibble and the foreground index in the
/// low nibble.
#[derive(Debug, Clone, Copy, PartialEq, Eq, Structural)]
pub struct ColorCode(pub u8);

/// The packed byte of a foreground and background pair: the background
/// index in the high nibble, the foreground index in the low nibble.
pub open spec fn color_code_spec(foreground: Color, background: Color) -> ColorCode {
    ColorCode((background.value_spec() * 16 + foreground.value_spec()) as u8)
}

impl ColorCode {
    pub fn new(foreground: Color, background: Color) -> (code: ColorCode)
        ensures
            code == color_code_spec(foreground, background),
            code.0 == (background.value_spec() << 4) | foreground.value_spec(),
            code.0 == background.value_spec() * 16 + foreground.value_spec(),
    {
        let bg: u8 = background.value();
        let fg: u8 = foreground.value();
        proof {
            assert((bg << 4) | fg == bg * 16 + fg && bg * 16 + fg < 256) by (bit_vector)
                requires
                    bg < 16 && fg < 16,
            ;
        }
        ColorCode((bg << 4) | fg)
    }
}

/// One cell of the text grid: an ASCII byte and its color byte.
#[derive(Debug, Clone, Copy, PartialEq, Eq, Structural)]
pub struct VgaCharacter {
    pub ascii_character: u8,
    pub character_color: ColorCode,
}

/// The height of the text buffer (normally 25 lines).
pub const BUFFER_HEIGHT: usize = 25;

/// The width of the text buffer (normally 80 columns).
pub const BUFFER_WIDTH: usize = 80;

/// A byte that has a glyph of its own in the printable ASCII range.
pub open spec fn printable(b: u8) -> bool {
    0x20 <= b <= 0x7e
}

/// The glyph actually stored for a byte: printable bytes stand for
/// themselves, anything else is shown as the replacement glyph 0xfe.
pub open spec fn glyph(b: u8) -> u8 {
    if printable(b) {
        b
    } else {
        0xfe
    }
}

/// The grid is stored row-major as one flat sequence.
pub open spec fn grid_wf(g: Seq<VgaCharacter>) -> bool {
    g.len() == BUFFER_HEIGHT * BUFFER_WIDTH
}

pub open spec fn cell_index(row: int, col: int) -> int {
    row * BUFFER_WIDTH + col
}

pub open spec fn blank_cell(color: ColorCode) -> VgaCharacter {
    VgaCharacter { ascii_character: 0x20, character_color: color }
}

/// A grid holding nothing but blank cells of one color.
pub open spec fn blank_grid(color: ColorCode) -> Seq<VgaCharacter> {
    Seq::new((BUFFER_HEIGHT * BUFFER_WIDTH) as nat, |i: int| blank_cell(color))
}

/// The grid after one row is overwritten with blank cells.
pub open spec fn cleared_row(g: Seq<VgaCharacter>, row: int, color: ColorCode) -> Seq<
    VgaCharacter,
> {
    Seq::new(g.len(), |i: int| if cell_index(row, 0) <= i < cell_index(row + 1, 0) {
        blank_cell(color)
    } else {
        g[i]
    })
}

/// The grid after scrolling: every row moves one row up, the oldest row is
/// discarded, and the bottom row becomes blank cells of the given color.
pub open spec fn scrolled(g: Seq<VgaCharacter>, color: ColorCode) -> Seq<VgaCharacter> {
    Seq::new(g.len(), |i: int| if i < cell_index(BUFFER_HEIGHT - 1, 0) {
        g[i + BUFFER_WIDTH]
    } else {
        blank_cell(color)
    })
}

/// The grid after one byte's glyph is stored at the given column of the
/// bottom row.
pub open spec fn put_bottom(g: Seq<VgaCharacter>, col: int, b: u8, color: ColorCode) -> Seq<
    VgaCharacter,
> {
    g.update(
        cell_index(BUFFER_HEIGHT - 1, col),
        VgaCharacter { ascii_character: glyph(b), character_color: color },
    )
}

/// Grid and column after one byte is written: a newline scrolls; a full
/// bottom row scrolls before the byte lands; otherwise the byte lands at the
/// current column and the column advances.
pub open spec fn write_byte_spec(g: Seq<VgaCharacter>, col: int, b: u8, color: ColorCode) -> (
    Seq<VgaCharacter>,
    int,
) {
    if b == 0x0a {
        (scrolled(g, color), 0)
    } else if col >= BUFFER_WIDTH {
        (put_bottom(scrolled(g, color), 0, b, color), 1)
    } else {
        (put_bottom(g, col, b, color), col + 1)
    }
}

/// Grid and column after a sequence of bytes is written in order.
pub open spec fn write_bytes_spec(
    g: Seq<VgaCharacter>,
    col: int,
    bytes: Seq<u8>,
    color: ColorCode,
) -> (Seq<VgaCharacter>, int)
    decreases bytes.len(),
{
    if bytes.len() == 0 {
        (g, col)
    } else {
        let step = write_byte_spec(g, col, bytes[0], color);
        write_bytes_spec(step.0, step.1, bytes.drop_first(), color)
    }
}

/// Writer over the text grid: owns the grid contents, the current write
/// column and the active color. The column may rest at `BUFFER_WIDTH` after
/// a row has been filled; the next byte then scrolls first.
pub struct VgaWriter {
    buffer: Vec<VgaCharacter>,
    column: usize,
    color_code: ColorCode,
}

impl VgaWriter {
    pub closed spec fn wf(self) -> bool {
        &&& grid_wf(self.buffer@)
        &&& self.column <= BUFFER_WIDTH
    }

    pub closed spec fn grid(self) -> Seq<VgaCharacter> {
        self.buffer@
    }

    pub closed spec fn column_spec(self) -> int {
        self.column as int
    }

    pub closed spec fn color_spec(self) -> ColorCode {
        self.color_code
    }

    /// A fresh writer: a blank grid of the given color, column zero.
    pub fn new(color_code: ColorCode) -> (w: VgaWriter)
        ensures
            w.wf(),
            w.grid() =~= blank_grid(color_code),
            w.column_spec() == 0,
            w.color_spec() == color_code,
    {
        let mut buffer: Vec<VgaCharacter> = Vec::new();
        let blank = VgaCharacter { ascii_character: 0x20, character_color: color_code };
        let mut i: usize = 0;
        while i < BUFFER_HEIGHT * BUFFER_WIDTH
            invariant
                i <= BUFFER_HEIGHT * BUFFER_WIDTH,
                buffer@.len() == i,
                blank == blank_cell(color_code),
                forall|j: int| 0 <= j < i ==> buffer@[j] == blank_cell(color_code),
            decreases BUFFER_HEIGHT * BUFFER_WIDTH - i,
        {
            buffer.push(blank);
            i += 1;
        }
        VgaWriter { buffer, column: 0, color_code }
    }

    /// The byte shown at a cell.
    pub fn char_at(&self, row: usize, col: usize) -> (b: u8)
        requires
            self.wf(),
            row < BUFFER_HEIGHT,
            col < BUFFER_WIDTH,
        ensures
            b == self.grid()[cell_index(row as int, col as int)].ascii_character,
    {
        self.buffer[row * BUFFER_WIDTH + col].ascii_character
    }

    /// The whole cell at a position.
    pub fn cell_at(&self, row: usize, col: usize) -> (c: VgaCharacter)
        requires
            self.wf(),
            row < BUFFER_HEIGHT,
            col < BUFFER_WIDTH,
        ensures
            c == self.grid()[cell_index(row as int, col as int)],
    {
        self.buffer[row * BUFFER_WIDTH + col]
    }

    /// The current write column.
    pub fn column(&self) -> (c: usize)
        ensures
            c == self.column_spec(),
    {
        self.column
    }

    /// Fill one row with blank cells of the current color and reset the
    /// write column.
    pub fn clear_line(&mut self, line_number: usize)
        requires
            old(self).wf(),
            line_number < BUFFER_HEIGHT,
        ensures
            final(self).wf(),
            final(self).grid() =~= cleared_row(old(self).grid(), line_number as int, old(self).color_spec()),
            final(self).column_spec() == 0,
            final(self).color_spec() == old(self).color_spec(),
    {
        let color = self.color_code;
        let blank = VgaCharacter { ascii_character: 0x20, character_color: color };
        let mut column: usize = 0;
        while column < BUFFER_WIDTH
            invariant
                old(self).wf(),
                column <= BUFFER_WIDTH,
                line_number < BUFFER_HEIGHT,
                color == old(self).color_spec(),
                blank == blank_cell(color),
                self.buffer@.len() == old(self).grid().len(),
                self.color_code == old(self).color_code,
                self.column == old(self).column,
                forall|i: int|
                    0 <= i < self.buffer@.len() ==> self.buffer@[i] == (
                    if cell_index(line_number as int, 0) <= i < cell_index(line_number as int, column as int) {
                        blank_cell(color)
                    } else {
                        old(self).grid()[i]
                    }),
            decreases BUFFER_WIDTH - column,
        {
            self.buffer.set(line_number * BUFFER_WIDTH + column, blank);
            column += 1;
        }
        self.column = 0;
    }

    /// Blank every row, bottom to top, leaving a blank grid.
    pub fn clear(&mut self)
        requires
            old(self).wf(),
        ensures
            final(self).wf(),
            final(self).grid() =~= blank_grid(old(self).color_spec()),
            final(self).column_spec() == 0,
            final(self).color_spec() == old(self).color_spec(),
    {
        let mut row: usize = BUFFER_HEIGHT;
        while row > 0
            invariant
                row <= BUFFER_HEIGHT,
                self.wf(),
                self.color_code == old(self).color_code,
                forall|i: int|
                    0 <= i < self.buffer@.len() ==> self.buffer@[i] == (
                    if cell_index(row as int, 0) <= i {
                        blank_cell(old(self).color_spec())
                    } else {
                        old(self).grid()[i]
                    }),
            decreases row,
        {
            row -= 1;
            self.clear_line(row);
        }
        self.column = 0;
    }

    /// Blank the bottom row.
    pub fn clear_last_line(&mut self)
        requires
            old(self).wf(),
        ensures
            final(self).wf(),
            final(self).grid() =~= cleared_row(old(self).grid(), BUFFER_HEIGHT - 1, old(self).color_spec()),
            final(self).column_spec() == 0,
            final(self).color_spec() == old(self).color_spec(),
    {
        self.clear_line(BUFFER_HEIGHT - 1);
    }

    /// Scroll: every row moves one row up, the bottom row becomes blank, and
    /// the write column resets.
    pub fn new_line(&mut self)
        requires
            old(self).wf(),
        ensures
            final(self).wf(),
            final(self).grid() =~= scrolled(old(self).grid(), old(self).color_spec()),
            final(self).column_spec() == 0,
            final(self).color_spec() == old(self).color_spec(),
    {
        let mut i: usize = 0;
        while i < (BUFFER_HEIGHT - 1) * BUFFER_WIDTH
            invariant
                i <= (BUFFER_HEIGHT - 1) * BUFFER_WIDTH,
                self.buffer@.len() == old(self).grid().len(),
                old(self).wf(),
                self.color_code == old(self).color_code,
                self.column == old(self).column,
                forall|j: int|
                    0 <= j < i ==> self.buffer@[j] == old(self).grid()[j + BUFFER_WIDTH],
                forall|j: int|
                    i <= j < self.buffer@.len() ==> self.buffer@[j] == old(self).grid()[j],
            decreases (BUFFER_HEIGHT - 1) * BUFFER_WIDTH - i,
        {
            let moved = self.buffer[i + BUFFER_WIDTH];
            self.buffer.set(i, moved);
            i += 1;
        }
        self.column = 0;
        self.clear_last_line();
    }

    /// Write one byte: a newline scrolls; a full bottom row scrolls first;
    /// otherwise the byte's glyph lands at the write column of the bottom
    /// row in the current color and the column advances.
    pub fn write_byte(&mut self, ascii_character: u8)
        requires
            old(self).wf(),
        ensures
            final(self).wf(),
            final(self).color_spec() == old(self).color_spec(),
            (final(self).grid(), final(self).column_spec()) == write_byte_spec(
                old(self).grid(),
                old(self).column_spec(),
                ascii_character,
                old(self).color_spec(),
            ),
    {
        if ascii_character == 0x0a {
            self.new_line();
            return ;
        }
        if self.column >= BUFFER_WIDTH {
            self.new_line();
        }
        let shown: u8 = if 0x20 <= ascii_character && ascii_character <= 0x7e {
            ascii_character
        } else {
            0xfe
        };
        let row: usize = BUFFER_HEIGHT - 1;
        self.buffer.set(
            row * BUFFER_WIDTH + self.column,
            VgaCharacter { ascii_character: shown, character_color: self.color_code },
        );
        self.column = self.column + 1;
    }

    /// Write a slice of bytes in order.
    pub fn write_bytes(&mut self, bytes: &[u8])
        requires
            old(self).wf(),
        ensures
            final(self).wf(),
            final(self).color_spec() == old(self).color_spec(),
            (final(self).grid(), final(self).column_spec()) == write_bytes_spec(
                old(self).grid(),
                old(self).column_spec(),
                bytes@,
                old(self).color_spec(),
            ),
    {
        let mut i: usize = 0;
        while i < bytes.len()
            invariant
                i <= bytes@.len(),
                self.wf(),
                self.color_code == old(self).color_code,
                (self.grid(), self.column_spec()) == write_bytes_spec(
                    old(self).grid(),
                    old(self).column_spec(),
                    bytes@.take(i as int),
                    old(self).color_code,
                ),
            decreases bytes@.len() - i,
        {
            proof {
                lemma_write_bytes_snoc(
                    old(self).grid(),
                    old(self).column_spec(),
                    bytes@.take(i as int),
                    bytes@[i as int],
                    old(self).color_code,
                );
                assert(bytes@.take(i as int).push(bytes@[i as int]) =~= bytes@.take(i + 1));
            }
            self.write_byte(bytes[i]);
            i += 1;
        }
        proof {
            assert(bytes@.take(bytes@.len() as int) =~= bytes@);
        }
    }

    /// Write a string's UTF-8 bytes in order.
    pub fn write_string(&mut self, string: &str)
        requires
            old(self).wf(),
        ensures
            final(self).wf(),
            final(self).color_spec() == old(self).color_spec(),
            (final(self).grid(), final(self).column_spec()) == write_bytes_spec(
                old(self).grid(),
                old(self).column_spec(),
                string.spec_bytes(),
                old(self).color_spec(),
            ),
    {
        self.write_bytes(string.as_bytes());
    }
}

/// Writes formatted text to the video grid through the given writer.
pub fn _print(writer: &mut VgaWriter, text: &str)
    requires
        old(writer).wf(),
    ensures
        final(writer).wf(),
        final(writer).color_spec() == old(writer).color_spec(),
        (final(writer).grid(), final(writer).column_spec()) == write_bytes_spec(
            old(writer).grid(),
            old(writer).column_spec(),
            text.spec_bytes(),
            old(writer).color_spec(),
        ),
{
    writer.write_string(text);
}

/// Writing `bytes` and then one more byte is one more step of
/// `write_byte_spec` after writing `bytes`.
pub proof fn lemma_write_bytes_snoc(
    g: Seq<VgaCharacter>,
    col: int,
    bytes: Seq<u8>,
    b: u8,
    color: ColorCode,
)
    ensures
        write_bytes_spec(g, col, bytes.push(b), color) == ({
            let prev = write_bytes_spec(g, col, bytes, color);
            write_byte_spec(prev.0, prev.1, b, color)
        }),
    decreases bytes.len(),
{
    let snoc = bytes.push(b);
    assert(snoc.len() == bytes.len() + 1);
    if bytes.len() == 0 {
        assert(snoc[0] == b);
        let step = write_byte_spec(g, col, b, color);
        assert(snoc.drop_first() =~= Seq::<u8>::empty());
        assert(write_bytes_spec(step.0, step.1, snoc.drop_first(), color) == (step.0, step.1));
        assert(write_bytes_spec(g, col, snoc, color) == (step.0, step.1));
        assert(write_bytes_spec(g, col, bytes, color) == (g, col));
        assert(write_byte_spec(g, col, b, color) == (step.0, step.1));
    } else {
        assert(snoc[0] == bytes[0]);
        let step = write_byte_spec(g, col, bytes[0], color);
        assert(snoc.drop_first() =~= bytes.drop_first().push(b));
        lemma_write_bytes_snoc(step.0, step.1, bytes.drop_first(), b, color);
        assert(write_bytes_spec(g, col, snoc, color) == write_bytes_spec(
            step.0,
            step.1,
            snoc.drop_first(),
            color,
        ));
        assert(write_bytes_spec(g, col, bytes, color) == write_bytes_spec(
            step.0,
            step.1,
            bytes.drop_first(),
            color,
        ));
    }
}

/// Writing a concatenation is writing the first part and then the second.
pub proof fn lemma_write_bytes_concat(
    g: Seq<VgaCharacter>,
    col: int,
    first: Seq<u8>,
    second: Seq<u8>,
    color: ColorCode,
)
    ensures
        write_bytes_spec(g, col, first + second, color) == ({
            let mid = write_bytes_spec(g, col, first, color);
            write_bytes_spec(mid.0, mid.1, second, color)
        }),
    decreases first.len(),
{
    if first.len() == 0 {
        assert(first + second =~= second);
        assert(write_bytes_spec(g, col, first, color) == (g, col));
    } else {
        let step = write_byte_spec(g, col, first[0], color);
        assert((first + second)[0] == first[0]);
        assert((first + second).drop_first() =~= first.drop_first() + second);
        lemma_write_bytes_concat(step.0, step.1, first.drop_first(), second, color);
        assert(write_bytes_spec(g, col, first + second, color) == write_bytes_spec(
            step.0,
            step.1,
            (first + second).drop_first(),
            color,
        ));
        assert(write_bytes_spec(g, col, first, color) == write_bytes_spec(
            step.0,
            step.1,
            first.drop_first(),
            color,
        ));
    }
}

/// Printable bytes that fit between the current column and the row's end
/// land one after another on the bottom row, leave every other cell alone,
/// and advance the column by their number.
pub proof fn lemma_write_row_segment(
    g: Seq<VgaCharacter>,
    col: int,
    bytes: Seq<u8>,
    color: ColorCode,
)
    requires
        grid_wf(g),
        0 <= col,
        col + bytes.len() <= BUFFER_WIDTH,
        forall|i: int| 0 <= i < bytes.len() ==> printable(#[trigger] bytes[i]),
    ensures
        ({
            let r = write_bytes_spec(g, col, bytes, color);
            let base = cell_index(BUFFER_HEIGHT - 1, col);
            &&& r.1 == col + bytes.len()
            &&& r.0.len() == g.len()
            &&& forall|j: int|
                0 <= j < g.len() ==> #[trigger] r.0[j] == (if base <= j < base + bytes.len() {
                    VgaCharacter { ascii_character: bytes[j - base], character_color: color }
                } else {
                    g[j]
                })
        }),
    decreases bytes.len(),
{
    let r = write_bytes_spec(g, col, bytes, color);
    let base = cell_index(BUFFER_HEIGHT - 1, col);
    if bytes.len() == 0 {
    } else {
        let b0: u8 = bytes[0];
        assert(printable(b0));
        let step = write_byte_spec(g, col, b0, color);
        assert(step.0 == put_bottom(g, col, b0, color));
        assert(glyph(b0) == b0);
        assert(step.0.len() == g.len());
        assert(grid_wf(step.0));
        assert(forall|i: int|
            0 <= i < bytes.drop_first().len() ==> printable(#[trigger] bytes.drop_first()[i]));
        lemma_write_row_segment(step.0, col + 1, bytes.drop_first(), color);
        let rest = write_bytes_spec(step.0, col + 1, bytes.drop_first(), color);
        assert(r == rest);
        assert(step.0[base] == (VgaCharacter { ascii_character: b0, character_color: color }));
        assert forall|j: int| 0 <= j < g.len() implies #[trigger] r.0[j] == (if base <= j < base
            + bytes.len() {
            VgaCharacter { ascii_character: bytes[j - base], character_color: color }
        } else {
            g[j]
        }) by {
            if j == base {
                assert(rest.0[j] == step.0[j]);
            } else if base < j < base + bytes.len() {
                assert(bytes.drop_first()[j - base - 1] == bytes[j - base]);
            } else {
                assert(rest.0[j] == step.0[j]);
                assert(step.0[j] == g[j]);
            }
        }
    }
}

/// For any sequence of printable bytes shorter than the grid width, written
/// from column zero, the bottom row's first cells hold those bytes in order
/// and the cursor equals their number.
pub proof fn lemma_short_line(g: Seq<VgaCharacter>, bytes: Seq<u8>, color: ColorCode)
    requires
        grid_wf(g),
        bytes.len() < BUFFER_WIDTH,
        forall|i: int| 0 <= i < bytes.len() ==> printable(#[trigger] bytes[i]),
    ensures
        ({
            let r = write_bytes_spec(g, 0, bytes, color);
            &&& r.1 == bytes.len()
            &&& forall|i: int|
                0 <= i < bytes.len() ==> r.0[cell_index(BUFFER_HEIGHT - 1, i)] == (VgaCharacter {
                    ascii_character: bytes[i],
                    character_color: color,
                })
        }),
{
    lemma_write_row_segment(g, 0, bytes, color);
}

/// A newline splits output across two rows exactly at the newline: the
/// bytes before it end on the row above the bytes after it, and the cursor
/// equals the number of bytes after it.
pub proof fn lemma_newline_split(
    g: Seq<VgaCharacter>,
    before: Seq<u8>,
    after: Seq<u8>,
    color: ColorCode,
)
    requires
        grid_wf(g),
        before.len() <= BUFFER_WIDTH,
        after.len() <= BUFFER_WIDTH,
        forall|i: int| 0 <= i < before.len() ==> printable(#[trigger] before[i]),
        forall|i: int| 0 <= i < after.len() ==> printable(#[trigger] after[i]),
    ensures
        ({
            let r = write_bytes_spec(g, 0, before + seq![0x0au8] + after, color);
            &&& r.1 == after.len()
            &&& forall|i: int|
                0 <= i < before.len() ==> r.0[cell_index(BUFFER_HEIGHT - 2, i)] == (VgaCharacter {
                    ascii_character: before[i],
                    character_color: color,
                })
            &&& forall|i: int|
                0 <= i < after.len() ==> r.0[cell_index(BUFFER_HEIGHT - 1, i)] == (VgaCharacter {
                    ascii_character: after[i],
                    character_color: color,
                })
        }),
{
    let nl_after = seq![0x0au8] + after;
    assert(before + seq![0x0au8] + after =~= before + nl_after);
    lemma_write_bytes_concat(g, 0, before, nl_after, color);
    lemma_write_row_segment(g, 0, before, color);
    let mid = write_bytes_spec(g, 0, before, color);
    assert(grid_wf(mid.0));
    assert(nl_after[0] == 0x0a);
    let step = write_byte_spec(mid.0, mid.1, 0x0a, color);
    assert(step == (scrolled(mid.0, color), 0int));
    assert(nl_after.drop_first() =~= after);
    assert(write_bytes_spec(mid.0, mid.1, nl_after, color) == write_bytes_spec(
        step.0,
        0,
        after,
        color,
    ));
    let scr = scrolled(mid.0, color);
    assert(grid_wf(scr));
    lemma_write_row_segment(scr, 0, after, color);
    let r = write_bytes_spec(scr, 0, after, color);
    assert forall|i: int| 0 <= i < before.len() implies r.0[cell_index(BUFFER_HEIGHT - 2, i)]
        == (VgaCharacter { ascii_character: before[i], character_color: color }) by {
        assert(cell_index(BUFFER_HEIGHT - 2, i) + BUFFER_WIDTH == cell_index(BUFFER_HEIGHT - 1, i));
        assert(scr[cell_index(BUFFER_HEIGHT - 2, i)] == mid.0[cell_index(BUFFER_HEIGHT - 1, i)]);
        assert(r.0[cell_index(BUFFER_HEIGHT - 2, i)] == scr[cell_index(BUFFER_HEIGHT - 2, i)]);
    }
}

/// The given byte repeated n times.
pub open spec fn repeated(b: u8, n: nat) -> Seq<u8> {
    Seq::new(n, |i: int| b)
}

/// Writing twice the grid width of one printable byte fills the bottom row
/// and the row above it with that byte. The cursor wraps to zero as the
/// writing crosses the row boundary (after one more byte than a row holds
/// it stands at one) and rests past the last column at the end.
pub proof fn lemma_double_width_wrap(g: Seq<VgaCharacter>, b: u8, color: ColorCode)
    requires
        grid_wf(g),
        printable(b),
    ensures
        ({
            let r = write_bytes_spec(g, 0, repeated(b, (2 * BUFFER_WIDTH) as nat), color);
            &&& r.1 == BUFFER_WIDTH
            &&& forall|c: int|
                0 <= c < BUFFER_WIDTH ==> #[trigger] r.0[cell_index(BUFFER_HEIGHT - 1, c)]
                    == (VgaCharacter { ascii_character: b, character_color: color })
            &&& forall|c: int|
                0 <= c < BUFFER_WIDTH ==> #[trigger] r.0[cell_index(BUFFER_HEIGHT - 2, c)]
                    == (VgaCharacter { ascii_character: b, character_color: color })
        }),
        write_bytes_spec(g, 0, repeated(b, BUFFER_WIDTH as nat), color).1 == BUFFER_WIDTH,
        write_bytes_spec(g, 0, repeated(b, (BUFFER_WIDTH + 1) as nat), color).1 == 1,
{
    let row = repeated(b, BUFFER_WIDTH as nat);
    assert(repeated(b, (2 * BUFFER_WIDTH) as nat) =~= row + row);
    lemma_write_bytes_concat(g, 0, row, row, color);
    lemma_write_row_segment(g, 0, row, color);
    let mid = write_bytes_spec(g, 0, row, color);
    assert(mid.1 == BUFFER_WIDTH);
    assert(grid_wf(mid.0));
    assert(row[0] == b);
    let step = write_byte_spec(mid.0, mid.1, b, color);
    let scr = scrolled(mid.0, color);
    assert(step == (put_bottom(scr, 0, b, color), 1int));
    assert(write_bytes_spec(mid.0, mid.1, row, color) == write_bytes_spec(
        step.0,
        1,
        row.drop_first(),
        color,
    ));
    assert(grid_wf(step.0));
    assert(row.drop_first() =~= repeated(b, (BUFFER_WIDTH - 1) as nat));
    lemma_write_row_segment(step.0, 1, row.drop_first(), color);
    let r = write_bytes_spec(step.0, 1, row.drop_first(), color);
    assert(r.1 == BUFFER_WIDTH);
    assert forall|c: int| 0 <= c < BUFFER_WIDTH implies #[trigger] r.0[cell_index(
        BUFFER_HEIGHT - 1,
        c,
    )] == (VgaCharacter { ascii_character: b, character_color: color }) by {
        if c == 0 {
            assert(step.0[cell_index(BUFFER_HEIGHT - 1, 0)] == (VgaCharacter {
                ascii_character: glyph(b),
                character_color: color,
            }));
            assert(r.0[cell_index(BUFFER_HEIGHT - 1, 0)] == step.0[cell_index(
                BUFFER_HEIGHT - 1,
                0,
            )]);
        } else {
            assert(row.drop_first()[c - 1] == b);
            assert(r.0[cell_index(BUFFER_HEIGHT - 1, 1 + (c - 1))] == (VgaCharacter {
                ascii_character: b,
                character_color: color,
            }));
        }
    }
    assert forall|c: int| 0 <= c < BUFFER_WIDTH implies #[trigger] r.0[cell_index(
        BUFFER_HEIGHT - 2,
        c,
    )] == (VgaCharacter { ascii_character: b, character_color: color }) by {
        assert(cell_index(BUFFER_HEIGHT - 2, c) + BUFFER_WIDTH == cell_index(BUFFER_HEIGHT - 1, c));
        assert(scr[cell_index(BUFFER_HEIGHT - 2, c)] == mid.0[cell_index(BUFFER_HEIGHT - 1, c)]);
        assert(mid.0[cell_index(BUFFER_HEIGHT - 1, c)] == (VgaCharacter {
            ascii_character: b,
            character_color: color,
        }));
        assert(step.0[cell_index(BUFFER_HEIGHT - 2, c)] == scr[cell_index(BUFFER_HEIGHT - 2, c)]);
        assert(r.0[cell_index(BUFFER_HEIGHT - 2, c)] == step.0[cell_index(BUFFER_HEIGHT - 2, c)]);
    }
    // the cursor's path across the boundary
    assert(repeated(b, (BUFFER_WIDTH + 1) as nat) =~= row.push(b));
    lemma_write_bytes_snoc(g, 0, row, b, color);
}

} // verus!

