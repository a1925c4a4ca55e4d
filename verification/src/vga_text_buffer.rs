//! The text console on the framebuffer: colours, the escape sequences that
//! select them, and the cursor.

use noto_sans_mono_bitmap::{get_raster, FontWeight, RasterHeight};
use vstd::prelude::*;

verus! {

/// The sixteen colours of the text console.
#[derive(Debug, Clone, Copy, PartialEq, Eq, Structural)]
pub enum Color {
    Black,
    Blue,
    Green,
    Cyan,
    Red,
    Magenta,
    Brown,
    LightGray,
    DarkGray,
    LightBlue,
    LightGreen,
    LightCyan,
    LightRed,
    Pink,
    Yellow,
    White,
}

/// The red, green and blue parts of a colour, and an alpha part of zero.
pub open spec fn color_rgb(color: Color) -> Seq<u8> {
    match color {
        Color::Black => seq![0x00u8, 0x00u8, 0x00u8, 0x00u8],
        Color::Blue => seq![0x00u8, 0x00u8, 0xFFu8, 0x00u8],
        Color::Green => seq![0x00u8, 0xFFu8, 0x00u8, 0x00u8],
        Color::Cyan => seq![0x00u8, 0xFFu8, 0xFFu8, 0x00u8],
        Color::Red => seq![0xFFu8, 0x00u8, 0x00u8, 0x00u8],
        Color::Magenta => seq![0xFFu8, 0x00u8, 0xFFu8, 0x00u8],
        Color::Brown => seq![0xFFu8, 0xFFu8, 0x80u8, 0x00u8],
        Color::LightGray => seq![0x55u8, 0x55u8, 0x55u8, 0x00u8],
        Color::DarkGray => seq![0xAAu8, 0xAAu8, 0xAAu8, 0x00u8],
        Color::LightBlue => seq![0x00u8, 0x00u8, 0x80u8, 0x00u8],
        Color::LightGreen => seq![0x00u8, 0x80u8, 0x80u8, 0x00u8],
        Color::LightCyan => seq![0x00u8, 0x80u8, 0x80u8, 0x00u8],
        Color::LightRed => seq![0x80u8, 0x00u8, 0x00u8, 0x00u8],
        Color::Pink => seq![0xFFu8, 0xCCu8, 0xCCu8, 0x00u8],
        Color::Yellow => seq![0xFFu8, 0xFFu8, 0x00u8, 0x00u8],
        Color::White => seq![0xFFu8, 0xFFu8, 0xFFu8, 0x00u8],
    }
}

impl Color {
    pub fn rgb(&self) -> (parts: [u8; 4])
        ensures
            parts@ == color_rgb(*self),
    {
        let alpha: u8 = 0x00;
        let parts: [u8; 4] = match self {
            Self::Black => [0x00, 0x00, 0x00, alpha],
            Self::Blue => [0x00, 0x00, 0xFF, alpha],
            Self::Green => [0x00, 0xFF, 0x00, alpha],
            Self::Cyan => [0x00, 0xFF, 0xFF, alpha],
            Self::Red => [0xFF, 0x00, 0x00, alpha],
            Self::Magenta => [0xFF, 0x00, 0xFF, alpha],
            Self::Brown => [0xFF, 0xFF, 0x80, alpha],
            Self::LightGray => [0x55, 0x55, 0x55, alpha],
            Self::DarkGray => [0xAA, 0xAA, 0xAA, alpha],
            Self::LightBlue => [0x00, 0x00, 0x80, alpha],
            Self::LightGreen => [0x00, 0x80, 0x80, alpha],
            Self::LightCyan => [0x00, 0x80, 0x80, alpha],
            Self::LightRed => [0x80, 0x00, 0x00, alpha],
            Self::Pink => [0xFF, 0xCC, 0xCC, alpha],
            Self::Yellow => [0xFF, 0xFF, 0x00, alpha],
            Self::White => [0xFF, 0xFF, 0xFF, alpha],
        };
        assert(parts@ =~= color_rgb(*self));
        parts
    }
}

/// Where the console stands in an escape sequence that selects a colour:
/// `ESC [ d d m` with two digits, or `ESC [ 0 m`.
#[derive(Debug, Clone, Copy, PartialEq, Eq, Structural)]
pub enum WriterState {
    /// Outside any sequence.
    Normal,
    /// After `ESC`.
    Escape,
    /// After `ESC [`.
    FirstCode,
    /// After the first character of the parameter.
    SecondCode(char),
    /// After the parameter.
    Finishing(char, char),
    /// After a whole sequence: the colour that it selected.
    Color(Color),
}

/// The colour that the second digit of the parameter `3d` selects.
pub open spec fn digit_color(digit: char) -> Option<Color> {
    if digit == '0' {
        Some(Color::Black)
    } else if digit == '1' {
        Some(Color::Red)
    } else if digit == '2' {
        Some(Color::Green)
    } else if digit == '3' {
        Some(Color::Yellow)
    } else if digit == '4' {
        Some(Color::Blue)
    } else if digit == '5' {
        Some(Color::Magenta)
    } else if digit == '6' {
        Some(Color::Cyan)
    } else if digit == '7' {
        Some(Color::White)
    } else {
        None
    }
}

/// The state after a character, and whether the character is to be printed.
///
/// Outside a sequence everything but `ESC` is printed. After `ESC` only `[`
/// goes on; anything else is printed. The parameter is `0`, which counts as
/// `00`, or any two characters. After the parameter only `m` goes on: it
/// selects white for a first character `0`, the colour of the second
/// character for a first character `3`, and nothing otherwise; anything else
/// is printed. A selected colour stays until it is taken out of the state.
pub open spec fn fed(state: WriterState, ch: char) -> (WriterState, bool) {
    match state {
        WriterState::Normal => if ch != '\x1b' {
            (WriterState::Normal, true)
        } else {
            (WriterState::Escape, false)
        },
        WriterState::Escape => if ch != '[' {
            (WriterState::Normal, true)
        } else {
            (WriterState::FirstCode, false)
        },
        WriterState::FirstCode => if ch == '0' {
            (WriterState::Finishing(ch, ch), false)
        } else {
            (WriterState::SecondCode(ch), false)
        },
        WriterState::SecondCode(first) => (WriterState::Finishing(first, ch), false),
        WriterState::Finishing(first, second) => if ch != 'm' {
            (WriterState::Normal, true)
        } else if first == '0' {
            (WriterState::Color(Color::White), false)
        } else if first != '3' {
            (WriterState::Normal, false)
        } else {
            match digit_color(second) {
                Some(color) => (WriterState::Color(color), false),
                None => (WriterState::Normal, false),
            }
        },
        WriterState::Color(color) => (WriterState::Color(color), true),
    }
}

impl WriterState {
    /// Takes the next character of the text.
    pub fn feed(&mut self, ch: char) -> (printable: bool)
        ensures
            (*final(self), printable) == fed(*old(self), ch),
    {
        match *self {
            Self::Normal => {
                if ch != '\x1b' {
                    *self = Self::Normal;
                    return true;
                }
                *self = Self::Escape;
                false
            },
            Self::Escape => {
                if ch != '[' {
                    *self = Self::Normal;
                    return true;
                }
                *self = Self::FirstCode;
                false
            },
            Self::FirstCode => {
                if ch == '0' {
                    *self = Self::Finishing(ch, ch);
                } else {
                    *self = Self::SecondCode(ch);
                }
                false
            },
            Self::SecondCode(first) => {
                *self = Self::Finishing(first, ch);
                false
            },
            Self::Finishing(first, second) => {
                if ch != 'm' {
                    *self = Self::Normal;
                    return true;
                }
                if first == '0' {
                    *self = Self::Color(Color::White);
                    return false;
                }
                if first != '3' {
                    *self = Self::Normal;
                    return false;
                }
                *self = match second {
                    '0' => Self::Color(Color::Black),
                    '1' => Self::Color(Color::Red),
                    '2' => Self::Color(Color::Green),
                    '3' => Self::Color(Color::Yellow),
                    '4' => Self::Color(Color::Blue),
                    '5' => Self::Color(Color::Magenta),
                    '6' => Self::Color(Color::Cyan),
                    '7' => Self::Color(Color::White),
                    _ => Self::Normal,
                };
                false
            },
            Self::Color(..) => true,
        }
    }
}

/// Rows between two lines of text.
pub const LINE_SPACING: usize = 2;

/// Columns between two characters.
pub const LETTER_SPACING: usize = 0;

/// Columns and rows kept free at the left and upper border.
pub const BORDER_PADDING: usize = 1;

/// Height of the raster of a character, in rows.
pub const CHAR_RASTER_HEIGHT: usize = 16;

/// The character that is drawn in place of one that the font lacks.
pub const BACKUP_CHAR: char = '\u{FFFD}';

/// How the bytes of a pixel are laid out.
#[derive(Debug, Clone, Copy, PartialEq, Eq, Structural)]
pub enum PixelFormat {
    /// Red, green, blue.
    Rgb,
    /// Blue, green, red.
    Bgr,
    /// One byte of grey.
    U8,
}

/// What the bootloader says of the framebuffer.
#[derive(Debug, Clone, Copy, PartialEq, Eq, Structural)]
pub struct FrameBufferInfo {
    pub byte_len: usize,
    pub width: usize,
    pub height: usize,
    pub pixel_format: PixelFormat,
    pub bytes_per_pixel: usize,
    pub stride: usize,
}

/// A character to be drawn: its raster goes to the rows from `y` and the
/// columns from `x` on, in `color`.
#[derive(Debug, Clone, Copy, PartialEq, Eq, Structural)]
pub struct Glyph {
    pub character: char,
    pub x: usize,
    pub y: usize,
    pub color: Color,
}

/// What a character does to the screen: the framebuffer is zeroed first if
/// `cleared`, then the glyph is drawn if there is one.
#[derive(Debug, Clone, Copy, PartialEq, Eq, Structural)]
pub struct Drawn {
    pub cleared: bool,
    pub glyph: Option<Glyph>,
}

/// The cursor of the console, the colour it writes in, and where it stands
/// in an escape sequence. Positions that would not fit a `usize` stop at the
/// largest one.
#[derive(Debug, Clone, Copy, PartialEq, Eq, Structural)]
pub struct Writer {
    pub info: FrameBufferInfo,
    /// Width of the raster of every character, in columns.
    pub raster_width: usize,
    pub last_width: usize,
    pub x_pos: usize,
    pub y_pos: usize,
    pub color: Color,
    pub state: WriterState,
}

/// `a + b`, or the largest `usize` where the sum does not fit.
pub open spec fn capped_sum(a: usize, b: usize) -> usize {
    if a + b > usize::MAX {
        usize::MAX
    } else {
        (a + b) as usize
    }
}

/// `a - b`, or zero where `b` is the larger.
pub open spec fn floored_difference(a: usize, b: usize) -> usize {
    if a < b {
        0
    } else {
        (a - b) as usize
    }
}

/// The writer at the start of the next line.
pub open spec fn at_next_line(writer: Writer) -> Writer {
    Writer {
        y_pos: capped_sum(writer.y_pos, (CHAR_RASTER_HEIGHT + LINE_SPACING) as usize),
        x_pos: BORDER_PADDING,
        ..writer
    }
}

/// The writer at the start of its line.
pub open spec fn at_line_start(writer: Writer) -> Writer {
    Writer { x_pos: BORDER_PADDING, ..writer }
}

/// The writer at the upper left corner.
pub open spec fn at_origin(writer: Writer) -> Writer {
    Writer { x_pos: BORDER_PADDING, y_pos: BORDER_PADDING, ..writer }
}

/// Whether a character does not fit the rest of the line.
pub open spec fn line_is_full(writer: Writer) -> bool {
    capped_sum(writer.x_pos, writer.raster_width) >= writer.info.width
}

/// Whether a line of text does not fit the rest of the screen.
pub open spec fn screen_is_full(writer: Writer) -> bool {
    capped_sum(writer.y_pos, (CHAR_RASTER_HEIGHT + BORDER_PADDING) as usize)
        >= writer.info.height
}

/// The writer where a printable character is to be drawn: on the next line
/// if its line is full, and then at the upper left corner if the screen is
/// full.
pub open spec fn at_free_cell(writer: Writer) -> Writer {
    let wrapped = if line_is_full(writer) {
        at_next_line(writer)
    } else {
        writer
    };
    if screen_is_full(wrapped) {
        at_origin(wrapped)
    } else {
        wrapped
    }
}

/// The writer after a glyph was drawn at its cursor.
pub open spec fn after_glyph(writer: Writer) -> Writer {
    Writer {
        last_width: writer.raster_width,
        x_pos: capped_sum(writer.x_pos, capped_sum(writer.raster_width, LETTER_SPACING)),
        ..writer
    }
}

/// The writer after a character, and what the character does to the screen.
///
/// A character that belongs to an escape sequence draws nothing; the one
/// that ends a sequence sets the colour. A line feed goes to the next line,
/// a carriage return to the start of the line. Every other character is
/// drawn in the next free cell, and the cursor moves behind it.
pub open spec fn char_written(writer: Writer, c: char) -> (Writer, Drawn) {
    let (state, printable) = fed(writer.state, c);
    if !printable {
        (
            match state {
                WriterState::Color(color) => Writer { state: WriterState::Normal, color, ..writer },
                _ => Writer { state, ..writer },
            },
            Drawn { cleared: false, glyph: None },
        )
    } else {
        let fed_writer = Writer { state, ..writer };
        if c == '\n' {
            (at_next_line(fed_writer), Drawn { cleared: false, glyph: None })
        } else if c == '\r' {
            (at_line_start(fed_writer), Drawn { cleared: false, glyph: None })
        } else {
            let wrapped = if line_is_full(fed_writer) {
                at_next_line(fed_writer)
            } else {
                fed_writer
            };
            let placed = at_free_cell(fed_writer);
            (
                after_glyph(placed),
                Drawn {
                    cleared: screen_is_full(wrapped),
                    glyph: Some(
                        Glyph { character: c, x: placed.x_pos, y: placed.y_pos, color: placed.color },
                    ),
                },
            )
        }
    }
}

/// The bytes of a pixel of a colour at an intensity between 0 and 255: each
/// part of the colour is scaled by the intensity, and the parts are laid out
/// as the format asks. A grey pixel is `0xf` above an intensity of 200, and
/// dark otherwise.
pub open spec fn pixel_bytes(color: Color, intensity: u8, format: PixelFormat) -> Seq<u8> {
    let rgb = color_rgb(color);
    let scaled = Seq::new(4, |i: int| ((rgb[i] * intensity) / 255) as u8);
    match format {
        PixelFormat::Rgb => scaled,
        PixelFormat::Bgr => seq![scaled[2], scaled[1], scaled[0], scaled[3]],
        PixelFormat::U8 => seq![
            if intensity > 200 {
                0xfu8
            } else {
                0u8
            },
            0u8,
            0u8,
            0u8,
        ],
    }
}

/// Where the bytes of the pixel in column `x` of row `y` start in the
/// framebuffer; nowhere if the pixel has more than four bytes or does not
/// lie within the buffer.
pub open spec fn pixel_offset(info: FrameBufferInfo, x: usize, y: usize) -> Option<usize> {
    let offset = (y * info.stride + x) * info.bytes_per_pixel;
    if info.bytes_per_pixel <= 4 && offset + info.bytes_per_pixel <= info.byte_len {
        Some(offset as usize)
    } else {
        None
    }
}

impl Writer {
    /// A writer for a framebuffer, with the cursor at the upper left corner.
    /// `raster_width` is the width of the characters of the font.
    pub fn new(info: FrameBufferInfo, raster_width: usize) -> (writer: Self)
        ensures
            writer == (Writer {
                info,
                raster_width,
                last_width: 0,
                x_pos: BORDER_PADDING,
                y_pos: BORDER_PADDING,
                color: Color::White,
                state: WriterState::Normal,
            }),
    {
        Writer {
            info,
            raster_width,
            last_width: 0,
            x_pos: BORDER_PADDING,
            y_pos: BORDER_PADDING,
            color: Color::White,
            state: WriterState::Normal,
        }
    }

    /// Takes over another framebuffer, which is to be cleared.
    pub fn set_fb(&mut self, info: FrameBufferInfo)
        ensures
            *final(self) == at_origin(Writer { info, ..*old(self) }),
    {
        self.clear();
        self.info = info;
    }

    pub fn newline(&mut self)
        ensures
            *final(self) == at_next_line(*old(self)),
    {
        self.y_pos = self.y_pos.saturating_add(CHAR_RASTER_HEIGHT + LINE_SPACING);
        self.carriage_return()
    }

    pub fn carriage_return(&mut self)
        ensures
            *final(self) == at_line_start(*old(self)),
    {
        self.x_pos = BORDER_PADDING;
    }

    /// Moves the cursor to the upper left corner. The framebuffer is to be
    /// zeroed.
    pub fn clear(&mut self)
        ensures
            *final(self) == at_origin(*old(self)),
    {
        self.x_pos = BORDER_PADDING;
        self.y_pos = BORDER_PADDING;
    }

    pub fn width(&self) -> (width: usize)
        ensures
            width == self.info.width,
    {
        self.info.width
    }

    pub fn height(&self) -> (height: usize)
        ensures
            height == self.info.height,
    {
        self.info.height
    }

    /// Takes the next character of the text.
    pub fn write_char(&mut self, c: char) -> (drawn: Drawn)
        ensures
            (*final(self), drawn) == char_written(*old(self), c),
    {
        if !self.state.feed(c) {
            if let WriterState::Color(color) = self.state {
                self.state = WriterState::Normal;
                self.color = color;
            }
            return Drawn { cleared: false, glyph: None };
        }
        match c {
            '\n' => {
                self.newline();
                Drawn { cleared: false, glyph: None }
            },
            '\r' => {
                self.carriage_return();
                Drawn { cleared: false, glyph: None }
            },
            c => {
                let new_xpos: usize = self.x_pos.saturating_add(self.raster_width);
                if new_xpos >= self.width() {
                    self.newline();
                }
                let new_ypos: usize = self.y_pos.saturating_add(
                    CHAR_RASTER_HEIGHT + BORDER_PADDING,
                );
                let mut cleared = false;
                if new_ypos >= self.height() {
                    self.clear();
                    cleared = true;
                }
                let glyph = self.place_char(c);
                Drawn { cleared, glyph: Some(glyph) }
            },
        }
    }

    /// Places a glyph at the cursor and moves the cursor behind it.
    pub fn place_char(&mut self, c: char) -> (glyph: Glyph)
        ensures
            *final(self) == after_glyph(*old(self)),
            glyph == (Glyph {
                character: c,
                x: old(self).x_pos,
                y: old(self).y_pos,
                color: old(self).color,
            }),
    {
        let glyph = Glyph { character: c, x: self.x_pos, y: self.y_pos, color: self.color };
        self.last_width = self.raster_width;
        self.x_pos = self.x_pos.saturating_add(self.last_width.saturating_add(LETTER_SPACING));
        glyph
    }

    /// Takes the last character back: a blank is drawn over it, and the
    /// cursor stands where the character stood.
    pub fn backspace(&mut self) -> (drawn: Drawn)
        ensures
            ({
                let back = Writer {
                    x_pos: floored_difference(old(self).x_pos, old(self).last_width),
                    ..*old(self)
                };
                let (blanked, blank) = char_written(back, ' ');
                &&& drawn == blank
                &&& *final(self) == (Writer {
                    x_pos: floored_difference(blanked.x_pos, blanked.last_width),
                    ..blanked
                })
            }),
    {
        self.x_pos = self.x_pos.saturating_sub(self.last_width);
        let drawn = self.write_char(' ');
        self.x_pos = self.x_pos.saturating_sub(self.last_width);
        drawn
    }

    /// Takes the characters of a text one after the other and returns what
    /// each does to the screen.
    pub fn write_string(&mut self, s: &str) -> (drawn: Vec<Drawn>)
        ensures
            (*final(self), drawn@) == string_written(*old(self), s@, s@.len() as int),
    {
        let mut drawn: Vec<Drawn> = Vec::new();
        let length: usize = s.unicode_len();
        let mut i: usize = 0;
        while i < length
            invariant
                length == s@.len(),
                i <= length,
                (*self, drawn@) == string_written(*old(self), s@, i as int),
            decreases length - i,
        {
            let c = s.get_char(i);
            let step = self.write_char(c);
            drawn.push(step);
            i += 1;
        }
        drawn
    }

    /// The bytes of a pixel of the glyph colour at an intensity.
    pub fn get_color(&self, intensity: u8) -> (bytes: [u8; 4])
        ensures
            bytes@ == pixel_bytes(self.color, intensity, self.info.pixel_format),
    {
        color_bytes(self.color, intensity, self.info.pixel_format)
    }
}

/// The bytes of a pixel of a colour at an intensity, in a layout.
pub fn color_bytes(color_of_pixel: Color, intensity: u8, format: PixelFormat) -> (bytes: [u8; 4])
    ensures
        bytes@ == pixel_bytes(color_of_pixel, intensity, format),
{
    let mut color: [u8; 4] = color_of_pixel.rgb();

    let intensity_wide: usize = intensity as usize;
    let mut i: usize = 0;
    while i < 4
        invariant
            i <= 4,
            intensity_wide == intensity,
            forall|k: int|
                0 <= k < i ==> color@[k] == ((color_rgb(color_of_pixel)[k] * intensity)
                    / 255) as u8,
            forall|k: int| i <= k < 4 ==> color@[k] == color_rgb(color_of_pixel)[k],
        decreases 4 - i,
    {
        let value: usize = color[i] as usize;
        assert(value * intensity_wide <= 255 * 255) by (nonlinear_arith)
            requires
                value <= 255,
                intensity_wide <= 255,
        ;
        color[i] = ((value * intensity_wide) / 255) as u8;
        i += 1;
    }
    let bytes: [u8; 4] = match format {
        PixelFormat::Rgb => color,
        PixelFormat::Bgr => [color[2], color[1], color[0], color[3]],
        PixelFormat::U8 => [
            if intensity > 200 {
                0xf
            } else {
                0
            },
            0,
            0,
            0,
        ],
    };
    assert(bytes@ =~= pixel_bytes(color_of_pixel, intensity, format));
    bytes
}

/// Where the bytes of a pixel start in the framebuffer.
pub fn pixel_start(info: FrameBufferInfo, x: usize, y: usize) -> (offset: Option<usize>)
    ensures
        offset == pixel_offset(info, x, y),
{
    let bytes_per_pixel: usize = info.bytes_per_pixel;
    if bytes_per_pixel > 4 {
        return None;
    }
    let row: Option<usize> = y.checked_mul(info.stride);
    let pixel_offset: usize = match row {
        Some(row) => match row.checked_add(x) {
            Some(offset) => offset,
            None => {
                assert((y * info.stride + x) * bytes_per_pixel + bytes_per_pixel
                    > usize::MAX || bytes_per_pixel == 0) by (nonlinear_arith)
                    requires
                        y * info.stride + x > usize::MAX,
                        0 <= bytes_per_pixel,
                ;
                return empty_pixel(info, x, y);
            },
        },
        None => {
            assert((y * info.stride + x) * bytes_per_pixel + bytes_per_pixel
                > usize::MAX || bytes_per_pixel == 0) by (nonlinear_arith)
                requires
                    y * info.stride > usize::MAX,
                    0 <= x,
                    0 <= bytes_per_pixel,
            ;
            return empty_pixel(info, x, y);
        },
    };
    match pixel_offset.checked_mul(bytes_per_pixel) {
        Some(byte_offset) => match byte_offset.checked_add(bytes_per_pixel) {
            Some(end) => if end <= info.byte_len {
                Some(byte_offset)
            } else {
                None
            },
            None => None,
        },
        None => None,
    }
}

/// The answer for a pixel whose number does not fit a `usize`: such a
/// pixel lies in the buffer only if pixels have no bytes at all.
fn empty_pixel(info: FrameBufferInfo, x: usize, y: usize) -> (offset: Option<usize>)
    requires
        info.bytes_per_pixel <= 4,
        (y * info.stride + x) * info.bytes_per_pixel + info.bytes_per_pixel
            > usize::MAX || info.bytes_per_pixel == 0,
    ensures
        offset == pixel_offset(info, x, y),
{
    if info.bytes_per_pixel == 0 {
        assert((y * info.stride + x) * 0 == 0) by (nonlinear_arith);
        Some(0)
    } else {
        None
    }
}

/// The writer after the first `n` characters of a text, and what each of
/// them does to the screen.
pub open spec fn string_written(writer: Writer, text: Seq<char>, n: int) -> (Writer, Seq<Drawn>)
    decreases n,
{
    if n <= 0 {
        (writer, Seq::empty())
    } else {
        let (before, drawn) = string_written(writer, text, n - 1);
        let (after, step) = char_written(before, text[n - 1]);
        (after, drawn.push(step))
    }
}

/// The raster of a character: the intensities of its pixels, row after
/// row, each row `width` pixels wide.
#[derive(Debug, Clone, PartialEq, Eq)]
pub struct Raster {
    pub width: usize,
    pub intensities: Vec<u8>,
}

/// The raster of a character in the regular weight at a height of 16 rows,
/// if the font knows the character.
pub uninterp spec fn raster_of(c: char) -> Option<Raster>;

/// `noto_sans_mono_bitmap::get_raster` for the regular weight and a height of
/// 16 rows, with `RasterizedChar::width` and the rows of
/// `RasterizedChar::raster` one after the other. The font is compiled in, so
/// the result depends on the character alone.
#[verifier::external_body]
fn rasterize(c: char) -> (raster: Option<Raster>)
    ensures
        raster == raster_of(c),
{
    let found = get_raster(c, FontWeight::Regular, RasterHeight::Size16)?;
    Some(
        Raster {
            width: found.width(),
            intensities: found.raster().iter().flat_map(|row| row.iter().copied()).collect(),
        },
    )
}

/// The raster that a character is drawn with: its own, or that of the
/// backup character where the font lacks it.
pub open spec fn char_raster(c: char) -> Option<Raster> {
    match raster_of(c) {
        Some(raster) => Some(raster),
        None => raster_of(BACKUP_CHAR),
    }
}

/// The raster that a character is drawn with.
pub fn get_char_raster(c: char) -> (raster: Option<Raster>)
    ensures
        raster == char_raster(c),
{
    match rasterize(c) {
        Some(raster) => Some(raster),
        None => rasterize(BACKUP_CHAR),
    }
}

/// Where the bytes of a pixel start in a framebuffer, which may be shorter
/// than its description says: nowhere if the pixel does not lie in both.
pub open spec fn pixel_place(buffer: Seq<u8>, info: FrameBufferInfo, x: usize, y: usize) -> Option<
    usize,
> {
    match pixel_offset(info, x, y) {
        Some(start) => if start + info.bytes_per_pixel <= buffer.len() {
            Some(start)
        } else {
            None
        },
        None => None,
    }
}

/// A framebuffer after a pixel was written: the bytes of the pixel hold the
/// colour at the intensity, in the layout of the framebuffer, and the other
/// bytes are as before. A pixel that does not lie in the framebuffer is not
/// written.
pub open spec fn pixel_written(
    buffer: Seq<u8>,
    info: FrameBufferInfo,
    color: Color,
    x: usize,
    y: usize,
    intensity: u8,
) -> Seq<u8> {
    match pixel_place(buffer, info, x, y) {
        Some(start) => Seq::new(
            buffer.len(),
            |i: int|
                if start <= i < start + info.bytes_per_pixel {
                    pixel_bytes(color, intensity, info.pixel_format)[i - start]
                } else {
                    buffer[i]
                },
        ),
        None => buffer,
    }
}

/// A framebuffer after the first `n` pixels of a glyph were written, row
/// after row. The pixel in column `c` of row `r` of the raster goes to
/// column `x + c` of row `y + r` of the screen. A raster without width has
/// no pixels.
pub open spec fn glyph_drawn(
    buffer: Seq<u8>,
    info: FrameBufferInfo,
    glyph: Glyph,
    raster: Raster,
    n: int,
) -> Seq<u8>
    decreases n,
{
    if n <= 0 || raster.width == 0 {
        buffer
    } else {
        pixel_written(
            glyph_drawn(buffer, info, glyph, raster, n - 1),
            info,
            glyph.color,
            capped_sum(glyph.x, ((n - 1) % (raster.width as int)) as usize),
            capped_sum(glyph.y, ((n - 1) / (raster.width as int)) as usize),
            raster.intensities@[n - 1],
        )
    }
}

/// A framebuffer after what a character does to the screen was carried
/// out: it is zeroed if asked for, and then the glyph is drawn with its
/// raster, unless the font has neither the character nor the backup
/// character.
pub open spec fn drawn_on(buffer: Seq<u8>, info: FrameBufferInfo, drawn: Drawn) -> Seq<u8> {
    let cleared = if drawn.cleared {
        Seq::new(buffer.len(), |i: int| 0u8)
    } else {
        buffer
    };
    match drawn.glyph {
        Some(glyph) => match char_raster(glyph.character) {
            Some(raster) => glyph_drawn(
                cleared,
                info,
                glyph,
                raster,
                raster.intensities@.len() as int,
            ),
            None => cleared,
        },
        None => cleared,
    }
}

/// Writes one pixel of a colour at an intensity into a framebuffer.
pub fn write_pixel(
    framebuffer: &mut [u8],
    info: FrameBufferInfo,
    color: Color,
    x: usize,
    y: usize,
    intensity: u8,
)
    ensures
        final(framebuffer)@ == pixel_written(old(framebuffer)@, info, color, x, y, intensity),
{
    let start: usize = match pixel_start(info, x, y) {
        Some(start) => start,
        None => {
            return ;
        },
    };
    let bytes_per_pixel: usize = info.bytes_per_pixel;
    if bytes_per_pixel > framebuffer.len() || start > framebuffer.len() - bytes_per_pixel {
        return ;
    }
    let bytes: [u8; 4] = color_bytes(color, intensity, info.pixel_format);
    let length: usize = framebuffer.len();
    let mut i: usize = 0;
    while i < bytes_per_pixel
        invariant
            i <= bytes_per_pixel <= 4,
            start + bytes_per_pixel <= framebuffer@.len() == length,
            framebuffer@.len() == old(framebuffer)@.len(),
            bytes@ == pixel_bytes(color, intensity, info.pixel_format),
            forall|k: int|
                0 <= k < framebuffer@.len() ==> framebuffer@[k] == (if start <= k < start + i {
                    bytes@[k - start]
                } else {
                    old(framebuffer)@[k]
                }),
        decreases bytes_per_pixel - i,
    {
        framebuffer[start + i] = bytes[i];
        i += 1;
    }
    assert(framebuffer@ =~= pixel_written(old(framebuffer)@, info, color, x, y, intensity));
}

/// Draws a glyph with its raster.
pub fn write_rendered_char(
    framebuffer: &mut [u8],
    info: FrameBufferInfo,
    glyph: Glyph,
    raster: &Raster,
)
    ensures
        final(framebuffer)@ == glyph_drawn(
            old(framebuffer)@,
            info,
            glyph,
            *raster,
            raster.intensities@.len() as int,
        ),
{
    if raster.width == 0 {
        return ;
    }
    let mut n: usize = 0;
    while n < raster.intensities.len()
        invariant
            raster.width > 0,
            n <= raster.intensities@.len(),
            framebuffer@ == glyph_drawn(old(framebuffer)@, info, glyph, *raster, n as int),
        decreases raster.intensities@.len() - n,
    {
        let x: usize = glyph.x.saturating_add(n % raster.width);
        let y: usize = glyph.y.saturating_add(n / raster.width);
        write_pixel(framebuffer, info, glyph.color, x, y, raster.intensities[n]);
        n += 1;
    }
}

/// Zeroes a framebuffer.
pub fn clear_framebuffer(framebuffer: &mut [u8])
    ensures
        final(framebuffer)@ == Seq::new(old(framebuffer)@.len(), |i: int| 0u8),
{
    let mut i: usize = 0;
    while i < framebuffer.len()
        invariant
            i <= framebuffer@.len(),
            framebuffer@.len() == old(framebuffer)@.len(),
            forall|k: int| 0 <= k < i ==> framebuffer@[k] == 0,
        decreases framebuffer@.len() - i,
    {
        framebuffer[i] = 0;
        i += 1;
    }
    assert(framebuffer@ =~= Seq::new(old(framebuffer)@.len(), |i: int| 0u8));
}

/// Carries out on a framebuffer what a character does to the screen.
pub fn draw(framebuffer: &mut [u8], info: FrameBufferInfo, drawn: Drawn)
    ensures
        final(framebuffer)@ == drawn_on(old(framebuffer)@, info, drawn),
{
    if drawn.cleared {
        clear_framebuffer(framebuffer);
    }
    if let Some(glyph) = drawn.glyph {
        if let Some(raster) = get_char_raster(glyph.character) {
            write_rendered_char(framebuffer, info, glyph, &raster);
        }
    }
}

} // verus!
