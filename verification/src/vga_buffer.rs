//! The console writer: a fixed 80x25 grid of display cells, a cursor, and
//! line-oriented output with wrapping, scrolling and substitution of bytes
//! that the display cannot show.

use vstd::prelude::*;
use vstd::string::StringSliceAdditionalSpecFns;

verus! {

/// Number of text rows in the display cell grid.
pub const BUFFER_HEIGHT: usize = 25;

/// Number of text columns in the display cell grid.
pub const BUFFER_WIDTH: usize = 80;

/// Glyph shown in place of a byte the display cannot render.
pub const FALLBACK_GLYPH: u8 = 0xfe;

/// The sixteen colors of the display palette.
#[derive(Clone, Copy, PartialEq, Eq, Structural, Debug)]
pub enum Color {
    Black,
    Blue,
    Green,
    Cyan,
    Red,
    Magenta,
    Brown,
    LightGray,
    DarkGray,
    LightBlue,
    LightGreen,
    LightCyan,
    LightRed,
    Pink,
    Yellow,
    White,
}

impl Color {
    /// The palette index of this color, a value below 16.
    pub open spec fn spec_as_u8(self) -> u8 {
        match self {
            Color::Black => 0,
            Color::Blue => 1,
            Color::Green => 2,
            Color::Cyan => 3,
            Color::Red => 4,
            Color::Magenta => 5,
            Color::Brown => 6,
            Color::LightGray => 7,
            Color::DarkGray => 8,
            Color::LightBlue => 9,
            Color::LightGreen => 10,
            Color::LightCyan => 11,
            Color::LightRed => 12,
            Color::Pink => 13,
            Color::Yellow => 14,
            Color::White => 15,
        }
    }

    /// Palette index of this color.
    pub fn as_u8(self) -> (v: u8)
        ensures
            v == self.spec_as_u8(),
            v < 16,
    {
        match self {
            Color::Black => 0,
            Color::Blue => 1,
            Color::Green => 2,
            Color::Cyan => 3,
            Color::Red => 4,
            Color::Magenta => 5,
            Color::Brown => 6,
            Color::LightGray => 7,
            Color::DarkGray => 8,
            Color::LightBlue => 9,
            Color::LightGreen => 10,
            Color::LightCyan => 11,
            Color::LightRed => 12,
            Color::Pink => 13,
            Color::Yellow => 14,
            Color::White => 15,
        }
    }

    /// The color with the given palette index.
    pub fn from_u8(v: u8) -> (c: Color)
        requires
            v < 16,
        ensures
            c.spec_as_u8() == v,
    {
        match v {
            0 => Color::Black,
            1 => Color::Blue,
            2 => Color::Green,
            3 => Color::Cyan,
            4 => Color::Red,
            5 => Color::Magenta,
            6 => Color::Brown,
            7 => Color::LightGray,
            8 => Color::DarkGray,
            9 => Color::LightBlue,
            10 => Color::LightGreen,
            11 => Color::LightCyan,
            12 => Color::LightRed,
            13 => Color::Pink,
            14 => Color::Yellow,
            _ => Color::White,
        }
    }
}

/// The encoding of a foreground and a background color into the single color
/// byte of a display cell: the background in the high four bits, the
/// foreground in the low four.
pub open spec fn color_code_byte(foreground: Color, background: Color) -> u8 {
    (background.spec_as_u8() << 4) | foreground.spec_as_u8()
}

/// The foreground palette index held in a color byte.
pub open spec fn spec_foreground_of(code: u8) -> u8 {
    code & 0x0f
}

/// The background palette index held in a color byte.
pub open spec fn spec_background_of(code: u8) -> u8 {
    code >> 4
}

/// A cell's color byte: background color in the high four bits, foreground
/// color in the low four bits.
#[derive(Clone, Copy, PartialEq, Eq, Structural, Debug)]
pub struct ColorCode(pub u8);

impl ColorCode {
    /// Encode a foreground and a background color into one color byte.
    pub fn new(foreground: Color, background: Color) -> (c: ColorCode)
        ensures
            c.0 == color_code_byte(foreground, background),
    {
        ColorCode((background.as_u8() << 4) | foreground.as_u8())
    }

    /// The foreground color encoded in this color byte.
    pub fn foreground(self) -> (v: u8)
        ensures
            v == spec_foreground_of(self.0),
    {
        self.0 & 0x0f
    }

    /// The background color encoded in this color byte.
    pub fn background(self) -> (v: u8)
        ensures
            v == spec_background_of(self.0),
    {
        self.0 >> 4
    }
}

/// Encoding a color pair and reading the two nibbles back are inverse to one
/// another, for every pair of palette colors.
pub proof fn lemma_color_code_round_trip(foreground: Color, background: Color)
    ensures
        spec_foreground_of(color_code_byte(foreground, background)) == foreground.spec_as_u8(),
        spec_background_of(color_code_byte(foreground, background)) == background.spec_as_u8(),
{
    let f = foreground.spec_as_u8();
    let b = background.spec_as_u8();
    assert(f < 16 && b < 16);
    assert(((b << 4) | f) & 0x0f == f) by (bit_vector)
        requires
            f < 16 && b < 16,
    ;
    assert(((b << 4) | f) >> 4 == b) by (bit_vector)
        requires
            f < 16 && b < 16,
    ;
}

/// A color byte is exactly its two nibbles put back together: re-encoding the
/// decoded pair yields the original byte.
pub proof fn lemma_color_byte_rebuilt(code: u8)
    ensures
        (spec_background_of(code) << 4) | spec_foreground_of(code) == code,
{
    assert(((code >> 4) << 4) | (code & 0x0f) == code) by (bit_vector);
}

/// One display cell: a character byte and the color byte it is shown with.
#[derive(Clone, Copy, PartialEq, Eq, Structural, Debug)]
pub struct ScreenChar {
    pub ascii_character: u8,
    pub color_code: ColorCode,
}

/// The fixed grid of display cells, stored row-major: the cell at a row and
/// column sits at index `row * BUFFER_WIDTH + col`. On hardware this grid is
/// the memory-mapped frame buffer; every access goes through the two checked
/// cell operations below, never through plain indexing spread around the code.
pub struct Buffer {
    chars: Vec<ScreenChar>,
}

impl View for Buffer {
    type V = Seq<ScreenChar>;

    closed spec fn view(&self) -> Seq<ScreenChar> {
        self.chars@
    }
}

impl Buffer {
    pub open spec fn wf(&self) -> bool {
        self@.len() == BUFFER_HEIGHT * BUFFER_WIDTH
    }

    /// A grid with every cell set to `fill`.
    pub fn new(fill: ScreenChar) -> (b: Buffer)
        ensures
            b.wf(),
            forall|i: int| 0 <= i < BUFFER_HEIGHT * BUFFER_WIDTH ==> b@[i] == fill,
    {
        let mut chars: Vec<ScreenChar> = Vec::new();
        let mut i: usize = 0;
        while i < BUFFER_HEIGHT * BUFFER_WIDTH
            invariant
                i <= BUFFER_HEIGHT * BUFFER_WIDTH,
                chars@.len() == i,
                forall|j: int| 0 <= j < i ==> chars@[j] == fill,
            decreases BUFFER_HEIGHT * BUFFER_WIDTH - i,
        {
            chars.push(fill);
            i = i + 1;
        }
        Buffer { chars }
    }

    /// Ordered read of the cell at a checked row and column.
    pub fn read_cell(&self, row: usize, col: usize) -> (c: ScreenChar)
        requires
            self.wf(),
            row < BUFFER_HEIGHT,
            col < BUFFER_WIDTH,
        ensures
            c == self@[row * BUFFER_WIDTH + col],
    {
        self.chars[row * BUFFER_WIDTH + col]
    }

    /// Ordered write of the cell at a checked row and column.
    pub fn write_cell(&mut self, row: usize, col: usize, cell: ScreenChar)
        requires
            old(self).wf(),
            row < BUFFER_HEIGHT,
            col < BUFFER_WIDTH,
        ensures
            final(self).wf(),
            final(self)@ == old(self)@.update(row * BUFFER_WIDTH + col, cell),
    {
        self.chars.set(row * BUFFER_WIDTH + col, cell);
    }
}

/// The abstract state of the console writer: cursor position, active color
/// byte, and the contents of the cell grid.
#[verifier::ext_equal]
pub ghost struct WriterModel {
    pub row: int,
    pub col: int,
    pub color: ColorCode,
    pub grid: Seq<ScreenChar>,
}

/// The states the writer can be in: the cursor row on the grid, the column at
/// most one past the right edge (the wrap is deferred until the next byte),
/// and a full grid.
pub open spec fn model_wf(m: WriterModel) -> bool {
    &&& 0 <= m.row < BUFFER_HEIGHT
    &&& 0 <= m.col <= BUFFER_WIDTH
    &&& m.grid.len() == BUFFER_HEIGHT * BUFFER_WIDTH
}

/// The cell a cleared position shows: a space in the given color.
pub open spec fn blank_cell(color: ColorCode) -> ScreenChar {
    ScreenChar { ascii_character: 0x20, color_code: color }
}

/// The grid after one scroll: every row above the first takes the contents of
/// the row below it, and the last row is cleared to `blank`.
pub open spec fn scrolled_grid(g: Seq<ScreenChar>, blank: ScreenChar) -> Seq<ScreenChar> {
    Seq::new(g.len(), |i: int| if i + BUFFER_WIDTH < g.len() { g[i + BUFFER_WIDTH] } else { blank })
}

/// The writer state after a line advance: below the last row the cursor moves
/// down one row; on the last row the grid scrolls instead. Either way the
/// column returns to zero.
pub open spec fn model_new_line(m: WriterModel) -> WriterModel {
    if m.row >= BUFFER_HEIGHT - 1 {
        WriterModel {
            row: BUFFER_HEIGHT - 1,
            col: 0,
            color: m.color,
            grid: scrolled_grid(m.grid, blank_cell(m.color)),
        }
    } else {
        WriterModel { row: m.row + 1, col: 0, color: m.color, grid: m.grid }
    }
}

/// The writer state after one byte: a newline advances the line; any other
/// byte first wraps if the column has reached the right edge, then lands in
/// the cell under the cursor with the active color, and the column moves
/// right.
pub open spec fn model_write_byte(m: WriterModel, byte: u8) -> WriterModel {
    if byte == 0x0a {
        model_new_line(m)
    } else {
        let m1 = if m.col >= BUFFER_WIDTH { model_new_line(m) } else { m };
        WriterModel {
            row: m1.row,
            col: m1.col + 1,
            color: m1.color,
            grid: m1.grid.update(
                m1.row * BUFFER_WIDTH + m1.col,
                ScreenChar { ascii_character: byte, color_code: m1.color },
            ),
        }
    }
}

/// Whether a byte is shown as itself: the printable range of the character
/// set, or a newline.
pub open spec fn printable_or_newline(byte: u8) -> bool {
    (0x20 <= byte <= 0x7e) || byte == 0x0a
}

/// The byte a given input byte is rendered as: itself when printable or a
/// newline, the fallback glyph otherwise. Each byte of a multi-byte encoded
/// character falls outside the printable range and so becomes one fallback
/// glyph of its own.
pub open spec fn rendered_byte(byte: u8) -> u8 {
    if printable_or_newline(byte) {
        byte
    } else {
        FALLBACK_GLYPH
    }
}

/// The writer state after a whole sequence of input bytes, each rendered and
/// then written in order.
pub open spec fn model_write_bytes(m: WriterModel, bytes: Seq<u8>) -> WriterModel
    decreases bytes.len(),
{
    if bytes.len() == 0 {
        m
    } else {
        model_write_byte(model_write_bytes(m, bytes.drop_last()), rendered_byte(bytes.last()))
    }
}

/// Writing a byte keeps the writer state well formed.
pub proof fn lemma_model_write_byte_wf(m: WriterModel, byte: u8)
    requires
        model_wf(m),
    ensures
        model_wf(model_write_byte(m, byte)),
{
}

/// Writing any sequence of bytes keeps the writer state well formed.
pub proof fn lemma_model_write_bytes_wf(m: WriterModel, bytes: Seq<u8>)
    requires
        model_wf(m),
    ensures
        model_wf(model_write_bytes(m, bytes)),
    decreases bytes.len(),
{
    if bytes.len() > 0 {
        lemma_model_write_bytes_wf(m, bytes.drop_last());
        lemma_model_write_byte_wf(model_write_bytes(m, bytes.drop_last()), bytes.last());
    }
}

/// The contents of one row of a grid, left to right.
pub open spec fn grid_row(g: Seq<ScreenChar>, row: int) -> Seq<ScreenChar> {
    g.subrange(row * BUFFER_WIDTH, row * BUFFER_WIDTH + BUFFER_WIDTH)
}

/// After a scroll, every row above the first holds exactly what the row
/// below it held before, and the last row is cleared to the blank cell.
pub proof fn lemma_scroll_shifts_rows(g: Seq<ScreenChar>, blank: ScreenChar)
    requires
        g.len() == BUFFER_HEIGHT * BUFFER_WIDTH,
    ensures
        forall|r: int|
            0 <= r < BUFFER_HEIGHT - 1 ==> grid_row(scrolled_grid(g, blank), r) == grid_row(
                g,
                r + 1,
            ),
        forall|c: int|
            0 <= c < BUFFER_WIDTH ==> #[trigger] grid_row(scrolled_grid(g, blank), BUFFER_HEIGHT
                - 1)[c] == blank,
{
    assert forall|r: int| 0 <= r < BUFFER_HEIGHT - 1 implies grid_row(scrolled_grid(g, blank), r)
        == grid_row(g, r + 1) by {
        assert(grid_row(scrolled_grid(g, blank), r) =~= grid_row(g, r + 1));
    }
}

/// Writing bytes that fit on the rest of the current line, none of them a
/// newline, leaves the cursor row and the color unchanged, moves the column
/// right by the number of bytes, renders each byte into its own cell in
/// order, and touches no other cell. In particular any byte outside the
/// printable range lands as the fallback glyph, one cell per input byte.
pub proof fn lemma_write_bytes_single_line(m: WriterModel, bytes: Seq<u8>)
    requires
        model_wf(m),
        m.col + bytes.len() <= BUFFER_WIDTH,
        forall|i: int| 0 <= i < bytes.len() ==> bytes[i] != 0x0a,
    ensures
        model_write_bytes(m, bytes).row == m.row,
        model_write_bytes(m, bytes).col == m.col + bytes.len(),
        model_write_bytes(m, bytes).color == m.color,
        forall|j: int|
            0 <= j < bytes.len() ==> model_write_bytes(m, bytes).grid[m.row * BUFFER_WIDTH + m.col
                + j] == (ScreenChar {
                ascii_character: rendered_byte(bytes[j]),
                color_code: m.color,
            }),
        forall|k: int|
            0 <= k < m.grid.len() && !(m.row * BUFFER_WIDTH + m.col <= k < m.row * BUFFER_WIDTH
                + m.col + bytes.len()) ==> model_write_bytes(m, bytes).grid[k] == m.grid[k],
        model_write_bytes(m, bytes).grid.len() == m.grid.len(),
    decreases bytes.len(),
{
    if bytes.len() > 0 {
        let bs = bytes.drop_last();
        let b = bytes.last();
        lemma_write_bytes_single_line(m, bs);
        let m1 = model_write_bytes(m, bs);
        let m2 = model_write_bytes(m, bytes);
        assert(rendered_byte(b) != 0x0a);
        assert(m1.col == m.col + bytes.len() - 1);
        assert(m1.col < BUFFER_WIDTH);
        let target = m1.row * BUFFER_WIDTH + m1.col;
        assert(m2.grid == m1.grid.update(
            target,
            ScreenChar { ascii_character: rendered_byte(b), color_code: m1.color },
        ));
        assert forall|j: int| 0 <= j < bytes.len() implies m2.grid[m.row * BUFFER_WIDTH + m.col + j]
            == (ScreenChar {
            ascii_character: rendered_byte(bytes[j]),
            color_code: m.color,
        }) by {
            if j < bytes.len() - 1 {
                assert(bs[j] == bytes[j]);
                assert(m1.grid[m.row * BUFFER_WIDTH + m.col + j] == (ScreenChar {
                    ascii_character: rendered_byte(bs[j]),
                    color_code: m.color,
                }));
                assert(m.row * BUFFER_WIDTH + m.col + j != target);
                assert(m2.grid[m.row * BUFFER_WIDTH + m.col + j] == m1.grid[m.row * BUFFER_WIDTH
                    + m.col + j]);
            } else {
                assert(m.row * BUFFER_WIDTH + m.col + j == target);
            }
        }
        assert forall|k: int|
            0 <= k < m.grid.len() && !(m.row * BUFFER_WIDTH + m.col <= k < m.row * BUFFER_WIDTH
                + m.col + bytes.len()) implies m2.grid[k] == m.grid[k] by {
            assert(m1.grid[k] == m.grid[k]);
            assert(k != target);
        }
    }
}

/// On an empty line, writing a full line of non-newline bytes and then one
/// more wraps: the row advances (scrolling when the cursor was already on the
/// last row) and the column comes to rest at one.
pub proof fn lemma_write_full_line_then_one(m: WriterModel, bytes: Seq<u8>)
    requires
        model_wf(m),
        m.col == 0,
        bytes.len() == BUFFER_WIDTH + 1,
        forall|i: int| 0 <= i < bytes.len() ==> bytes[i] != 0x0a,
    ensures
        model_write_bytes(m, bytes).col == 1,
        model_write_bytes(m, bytes).row == (if m.row < BUFFER_HEIGHT - 1 {
            m.row + 1
        } else {
            (BUFFER_HEIGHT - 1) as int
        }),
{
    lemma_write_bytes_single_line(m, bytes.drop_last());
}

/// A newline byte always returns the column to zero. Below the last row it
/// advances the row by exactly one and leaves the grid alone; on the last row
/// it scrolls the grid instead and the row stays put.
pub proof fn lemma_newline_behavior(m: WriterModel)
    requires
        model_wf(m),
    ensures
        model_write_byte(m, 0x0a) == model_new_line(m),
        model_new_line(m).col == 0,
        model_new_line(m).color == m.color,
        m.row < BUFFER_HEIGHT - 1 ==> model_new_line(m).row == m.row + 1 && model_new_line(m).grid
            == m.grid,
        m.row == BUFFER_HEIGHT - 1 ==> model_new_line(m).row == m.row && model_new_line(m).grid
            == scrolled_grid(m.grid, blank_cell(m.color)),
{
}

/// The console writer: cursor state and the cell grid it owns. The grid is
/// the writer's view of the frame buffer; on hardware each cell write is
/// mirrored by an ordered store into video memory.
pub struct Writer {
    pub row_position: usize,
    pub column_position: usize,
    pub color_code: ColorCode,
    pub buffer: Buffer,
}

impl View for Writer {
    type V = WriterModel;

    open spec fn view(&self) -> WriterModel {
        WriterModel {
            row: self.row_position as int,
            col: self.column_position as int,
            color: self.color_code,
            grid: self.buffer@,
        }
    }
}

impl Writer {
    pub open spec fn wf(&self) -> bool {
        model_wf(self@)
    }

    /// A writer at the top left corner of a cleared grid, with the given
    /// active color.
    pub fn new(color_code: ColorCode) -> (w: Writer)
        ensures
            w.wf(),
            w@.row == 0,
            w@.col == 0,
            w@.color == color_code,
            forall|i: int|
                0 <= i < BUFFER_HEIGHT * BUFFER_WIDTH ==> w@.grid[i] == blank_cell(color_code),
    {
        Writer {
            row_position: 0,
            column_position: 0,
            color_code,
            buffer: Buffer::new(ScreenChar { ascii_character: 0x20, color_code }),
        }
    }

    /// Advance to the next line: move the cursor down, or scroll the grid
    /// when the cursor is already on the last row; the column returns to
    /// zero.
    #[verifier::loop_isolation(false)]
    pub fn new_line(&mut self)
        requires
            old(self).wf(),
        ensures
            final(self).wf(),
            final(self)@ == model_new_line(old(self)@),
    {
        if self.row_position >= BUFFER_HEIGHT - 1 {
            let blank = ScreenChar { ascii_character: 0x20, color_code: self.color_code };
            let ghost g0 = self.buffer@;
            let mut row: usize = 1;
            while row < BUFFER_HEIGHT
                invariant
                    1 <= row <= BUFFER_HEIGHT,
                    self.buffer.wf(),
                    self.row_position == old(self).row_position,
                    self.column_position == old(self).column_position,
                    self.color_code == old(self).color_code,
                    forall|i: int| 0 <= i < (row - 1) * BUFFER_WIDTH ==> self.buffer@[i] == g0[i + BUFFER_WIDTH],
                    forall|i: int|
                        (row - 1) * BUFFER_WIDTH <= i < BUFFER_HEIGHT * BUFFER_WIDTH
                            ==> self.buffer@[i] == g0[i],
                decreases BUFFER_HEIGHT - row,
            {
                let mut col: usize = 0;
                while col < BUFFER_WIDTH
                    invariant
                        1 <= row < BUFFER_HEIGHT,
                        col <= BUFFER_WIDTH,
                        self.buffer.wf(),
                        self.row_position == old(self).row_position,
                        self.column_position == old(self).column_position,
                        self.color_code == old(self).color_code,
                        forall|i: int|
                            0 <= i < (row - 1) * BUFFER_WIDTH + col
                                ==> self.buffer@[i] == g0[i + BUFFER_WIDTH],
                        forall|i: int|
                            (row - 1) * BUFFER_WIDTH + col <= i < BUFFER_HEIGHT * BUFFER_WIDTH
                                ==> self.buffer@[i] == g0[i],
                    decreases BUFFER_WIDTH - col,
                {
                    let ch = self.buffer.read_cell(row, col);
                    self.buffer.write_cell(row - 1, col, ch);
                    col = col + 1;
                }
                row = row + 1;
            }
            let mut col: usize = 0;
            while col < BUFFER_WIDTH
                invariant
                    col <= BUFFER_WIDTH,
                    self.buffer.wf(),
                    self.row_position == old(self).row_position,
                    self.column_position == old(self).column_position,
                    self.color_code == old(self).color_code,
                    forall|i: int|
                        0 <= i < (BUFFER_HEIGHT - 1) * BUFFER_WIDTH
                            ==> self.buffer@[i] == g0[i + BUFFER_WIDTH],
                    forall|i: int|
                        (BUFFER_HEIGHT - 1) * BUFFER_WIDTH <= i < (BUFFER_HEIGHT - 1) * BUFFER_WIDTH + col
                            ==> self.buffer@[i] == blank,
                    forall|i: int|
                        (BUFFER_HEIGHT - 1) * BUFFER_WIDTH + col <= i < BUFFER_HEIGHT * BUFFER_WIDTH
                            ==> self.buffer@[i] == g0[i],
                decreases BUFFER_WIDTH - col,
            {
                self.buffer.write_cell(BUFFER_HEIGHT - 1, col, blank);
                col = col + 1;
            }
            self.row_position = BUFFER_HEIGHT - 1;
            self.column_position = 0;
            proof {
                assert(self.buffer@ =~= scrolled_grid(g0, blank_cell(self.color_code)));
            }
        } else {
            self.row_position = self.row_position + 1;
            self.column_position = 0;
        }
    }

    /// Write one byte: a newline advances the line; any other byte is placed
    /// at the cursor in the active color, wrapping first when the line is
    /// full.
    pub fn write_byte(&mut self, byte: u8)
        requires
            old(self).wf(),
        ensures
            final(self).wf(),
            final(self)@ == model_write_byte(old(self)@, byte),
    {
        if byte == 0x0a {
            self.new_line();
        } else {
            if self.column_position >= BUFFER_WIDTH {
                self.new_line();
            }
            let row = self.row_position;
            let col = self.column_position;
            let color_code = self.color_code;
            self.buffer.write_cell(row, col, ScreenChar { ascii_character: byte, color_code });
            self.column_position = self.column_position + 1;
        }
    }

    /// Write every byte of the text in order: bytes in the printable range
    /// and newlines verbatim, every other byte as the fallback glyph.
    pub fn write_string(&mut self, s: &str)
        requires
            old(self).wf(),
        ensures
            final(self).wf(),
            final(self)@ == model_write_bytes(old(self)@, s.spec_bytes()),
    {
        let bytes = s.as_bytes();
        let n = bytes.len();
        let mut i: usize = 0;
        while i < n
            invariant
                i <= n,
                n == bytes@.len(),
                bytes@ == s.spec_bytes(),
                self.wf(),
                self@ == model_write_bytes(old(self)@, bytes@.subrange(0, i as int)),
            decreases n - i,
        {
            let byte = bytes[i];
            proof {
                assert(bytes@.subrange(0, i + 1).drop_last() =~= bytes@.subrange(0, i as int));
                assert(bytes@.subrange(0, i + 1).last() == byte);
            }
            if (0x20 <= byte && byte <= 0x7e) || byte == 0x0a {
                self.write_byte(byte);
            } else {
                self.write_byte(FALLBACK_GLYPH);
            }
            i = i + 1;
        }
        proof {
            assert(bytes@.subrange(0, n as int) =~= bytes@);
        }
    }
}

/// Entry point of the text-output surface: writes one already-formatted
/// piece of text through the given writer. The surrounding system formats
/// its arguments, takes the writer's lock and serializes calls here.
pub fn _print(writer: &mut Writer, s: &str)
    requires
        old(writer).wf(),
    ensures
        final(writer).wf(),
        final(writer)@ == model_write_bytes(old(writer)@, s.spec_bytes()),
{
    writer.write_string(s);
}

} // verus!

