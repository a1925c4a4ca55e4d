use nocciolo::logging::{log, Color as LogColor, Colored, Colorize, Level};
use nocciolo::meta::Console;
use nocciolo::vga_text_buffer::{
    clear_framebuffer, draw, get_char_raster, pixel_start, write_pixel, write_rendered_char, Color,
    Drawn, FrameBufferInfo, Glyph, PixelFormat, Raster, Writer, WriterState, BACKUP_CHAR,
    BORDER_PADDING,
};

fn feed_all(state: &mut WriterState, text: &str) -> Vec<bool> {
    text.chars().map(|c| state.feed(c)).collect()
}

#[test]
fn plain_characters_are_printable() {
    let mut state = WriterState::Normal;
    assert_eq!(feed_all(&mut state, "ab\n"), vec![true, true, true]);
    assert_eq!(state, WriterState::Normal);
}

#[test]
fn colour_sequence_selects_a_colour() {
    let mut state = WriterState::Normal;
    assert_eq!(feed_all(&mut state, "\x1b[31m"), vec![false; 5]);
    assert_eq!(state, WriterState::Color(Color::Red));
    let codes = [
        ('0', Color::Black),
        ('1', Color::Red),
        ('2', Color::Green),
        ('3', Color::Yellow),
        ('4', Color::Blue),
        ('5', Color::Magenta),
        ('6', Color::Cyan),
        ('7', Color::White),
    ];
    for (digit, color) in codes {
        let mut state = WriterState::Finishing('3', digit);
        assert!(!state.feed('m'));
        assert_eq!(state, WriterState::Color(color));
    }
}

#[test]
fn reset_sequence_selects_white() {
    let mut state = WriterState::Normal;
    assert_eq!(feed_all(&mut state, "\x1b[0m"), vec![false; 4]);
    assert_eq!(state, WriterState::Color(Color::White));
    assert!(state.feed('x'));
    assert_eq!(state, WriterState::Color(Color::White));
}

#[test]
fn escape_sequence_steps_through_its_states() {
    let mut state = WriterState::Normal;
    assert!(!state.feed('\x1b'));
    assert_eq!(state, WriterState::Escape);
    assert!(!state.feed('['));
    assert_eq!(state, WriterState::FirstCode);
    assert!(!state.feed('3'));
    assert_eq!(state, WriterState::SecondCode('3'));
    assert!(!state.feed('4'));
    assert_eq!(state, WriterState::Finishing('3', '4'));
    assert!(!state.feed('m'));
    assert_eq!(state, WriterState::Color(Color::Blue));
}

#[test]
fn broken_sequences_fall_back_to_normal() {
    let mut state = WriterState::Escape;
    assert!(state.feed('x'));
    assert_eq!(state, WriterState::Normal);

    let mut state = WriterState::Finishing('3', '1');
    assert!(state.feed('x'));
    assert_eq!(state, WriterState::Normal);

    let mut state = WriterState::Finishing('3', '9');
    assert!(!state.feed('m'));
    assert_eq!(state, WriterState::Normal);

    let mut state = WriterState::Finishing('4', '1');
    assert!(!state.feed('m'));
    assert_eq!(state, WriterState::Normal);
}

#[test]
fn colours_have_their_parts() {
    assert_eq!(Color::Black.rgb(), [0x00, 0x00, 0x00, 0x00]);
    assert_eq!(Color::Blue.rgb(), [0x00, 0x00, 0xFF, 0x00]);
    assert_eq!(Color::Green.rgb(), [0x00, 0xFF, 0x00, 0x00]);
    assert_eq!(Color::Cyan.rgb(), [0x00, 0xFF, 0xFF, 0x00]);
    assert_eq!(Color::Red.rgb(), [0xFF, 0x00, 0x00, 0x00]);
    assert_eq!(Color::Magenta.rgb(), [0xFF, 0x00, 0xFF, 0x00]);
    assert_eq!(Color::Brown.rgb(), [0xFF, 0xFF, 0x80, 0x00]);
    assert_eq!(Color::LightGray.rgb(), [0x55, 0x55, 0x55, 0x00]);
    assert_eq!(Color::DarkGray.rgb(), [0xAA, 0xAA, 0xAA, 0x00]);
    assert_eq!(Color::LightBlue.rgb(), [0x00, 0x00, 0x80, 0x00]);
    assert_eq!(Color::LightGreen.rgb(), [0x00, 0x80, 0x80, 0x00]);
    assert_eq!(Color::LightCyan.rgb(), [0x00, 0x80, 0x80, 0x00]);
    assert_eq!(Color::LightRed.rgb(), [0x80, 0x00, 0x00, 0x00]);
    assert_eq!(Color::Pink.rgb(), [0xFF, 0xCC, 0xCC, 0x00]);
    assert_eq!(Color::Yellow.rgb(), [0xFF, 0xFF, 0x00, 0x00]);
    assert_eq!(Color::White.rgb(), [0xFF, 0xFF, 0xFF, 0x00]);
}

fn info(format: PixelFormat) -> FrameBufferInfo {
    FrameBufferInfo {
        byte_len: 640 * 480 * 4,
        width: 640,
        height: 480,
        pixel_format: format,
        bytes_per_pixel: 4,
        stride: 640,
    }
}

fn glyph(character: char, x: usize, y: usize, color: Color) -> Drawn {
    Drawn { cleared: false, glyph: Some(Glyph { character, x, y, color }) }
}

const NOTHING: Drawn = Drawn { cleared: false, glyph: None };

#[test]
fn characters_advance_the_cursor() {
    let mut writer = Writer::new(info(PixelFormat::Rgb), 7);
    assert_eq!(BORDER_PADDING, 1);
    assert_eq!(writer.write_char('a'), glyph('a', 1, 1, Color::White));
    assert_eq!(writer.write_char('b'), glyph('b', 8, 1, Color::White));
    assert_eq!((writer.x_pos, writer.y_pos, writer.last_width), (15, 1, 7));
    assert_eq!(writer.write_char('\n'), NOTHING);
    assert_eq!((writer.x_pos, writer.y_pos), (1, 19));
    writer.write_char('c');
    assert_eq!(writer.write_char('\r'), NOTHING);
    assert_eq!((writer.x_pos, writer.y_pos), (1, 19));
    assert_eq!(writer.width(), 640);
    assert_eq!(writer.height(), 480);
}

#[test]
fn full_line_wraps_and_full_screen_clears() {
    let mut writer = Writer::new(info(PixelFormat::Rgb), 7);
    writer.x_pos = 633;
    assert_eq!(writer.write_char('x'), glyph('x', 1, 19, Color::White));
    writer.x_pos = 632;
    writer.y_pos = 1;
    assert_eq!(writer.write_char('x'), glyph('x', 632, 1, Color::White));

    writer.y_pos = 463;
    writer.x_pos = 1;
    assert_eq!(
        writer.write_char('y'),
        Drawn { cleared: true, glyph: Some(Glyph { character: 'y', x: 1, y: 1, color: Color::White }) }
    );
    writer.y_pos = 462;
    writer.x_pos = 1;
    assert_eq!(writer.write_char('y'), glyph('y', 1, 462, Color::White));
}

#[test]
fn colour_sequences_change_the_colour_of_what_follows() {
    let mut writer = Writer::new(info(PixelFormat::Rgb), 7);
    let drawn = writer.write_string("a\x1b[32mb\x1b[0mc");
    assert_eq!(drawn.len(), 12);
    let glyphs: Vec<Glyph> = drawn.iter().filter_map(|step| step.glyph).collect();
    assert_eq!(
        glyphs,
        vec![
            Glyph { character: 'a', x: 1, y: 1, color: Color::White },
            Glyph { character: 'b', x: 8, y: 1, color: Color::Green },
            Glyph { character: 'c', x: 15, y: 1, color: Color::White },
        ]
    );
    assert_eq!(writer.state, WriterState::Normal);
    assert_eq!(writer.color, Color::White);
}

#[test]
fn backspace_blanks_the_last_character() {
    let mut writer = Writer::new(info(PixelFormat::Rgb), 7);
    writer.write_string("ab");
    assert_eq!(Console::backspace(&mut writer), glyph(' ', 8, 1, Color::White));
    assert_eq!(writer.x_pos, 8);
    assert_eq!(writer.backspace(), glyph(' ', 1, 1, Color::White));
    assert_eq!(writer.x_pos, 1);
    assert_eq!(writer.backspace(), glyph(' ', 0, 1, Color::White));
    assert_eq!(writer.x_pos, 0);
}

#[test]
fn new_framebuffer_resets_the_cursor() {
    let mut writer = Writer::new(info(PixelFormat::Rgb), 7);
    writer.write_string("abc\n");
    writer.set_fb(info(PixelFormat::Bgr));
    assert_eq!((writer.x_pos, writer.y_pos), (1, 1));
    assert_eq!(writer.info.pixel_format, PixelFormat::Bgr);
    writer.newline();
    writer.newline();
    assert_eq!(writer.y_pos, 37);
    writer.clear();
    assert_eq!((writer.x_pos, writer.y_pos), (1, 1));
    writer.x_pos = 50;
    writer.carriage_return();
    assert_eq!(writer.x_pos, 1);
}

#[test]
fn pixels_are_scaled_and_laid_out() {
    let mut writer = Writer::new(info(PixelFormat::Rgb), 7);
    writer.color = Color::Pink;
    assert_eq!(writer.get_color(255), [0xFF, 0xCC, 0xCC, 0x00]);
    assert_eq!(writer.get_color(0), [0, 0, 0, 0]);
    assert_eq!(writer.get_color(128), [128, 102, 102, 0]);
    writer.info.pixel_format = PixelFormat::Bgr;
    writer.color = Color::Brown;
    assert_eq!(writer.get_color(255), [0x80, 0xFF, 0xFF, 0x00]);
    writer.info.pixel_format = PixelFormat::U8;
    assert_eq!(writer.get_color(201), [0xf, 0, 0, 0]);
    assert_eq!(writer.get_color(200), [0, 0, 0, 0]);
}

#[test]
fn pixels_start_where_the_stride_says() {
    let writer = Writer::new(info(PixelFormat::Rgb), 7);
    assert_eq!(pixel_start(writer.info, 0, 0), Some(0));
    assert_eq!(pixel_start(writer.info, 3, 2), Some((2 * 640 + 3) * 4));
    assert_eq!(pixel_start(writer.info, 639, 479), Some(640 * 480 * 4 - 4));
    assert_eq!(pixel_start(writer.info, 0, 480), None);
    assert_eq!(pixel_start(writer.info, usize::MAX, 1), None);
    assert_eq!(pixel_start(writer.info, 1, usize::MAX), None);
    let mut wide = writer;
    wide.info.bytes_per_pixel = 5;
    assert_eq!(pixel_start(wide.info, 0, 0), None);
}

#[test]
fn log_colours_have_their_codes() {
    assert_eq!(LogColor::Black.as_str(), "30");
    assert_eq!(LogColor::Red.as_str(), "31");
    assert_eq!(LogColor::Green.as_str(), "32");
    assert_eq!(LogColor::Yellow.as_str(), "33");
    assert_eq!(LogColor::Blue.as_str(), "34");
    assert_eq!(LogColor::Magenta.as_str(), "35");
    assert_eq!(LogColor::Cyan.as_str(), "36");
    assert_eq!(LogColor::White.as_str(), "37");
    assert_eq!(LogColor::Default.as_str(), "39");
    assert_eq!(LogColor::Cyan.escape(), "\x1b[36m");
}

#[test]
fn values_are_rendered_in_their_colour() {
    let colored: Colored<u32> = 0xFEE0_0000u32.red();
    assert_eq!(colored.color, LogColor::Red);
    assert_eq!(colored.inner, 0xFEE0_0000);
    assert_eq!(colored.render("FEE00000"), "\x1b[31mFEE00000\x1b[0m");
    assert_eq!("kernel".white().render("kernel"), "\x1b[37mkernel\x1b[0m");
    assert_eq!(7u8.black().color, LogColor::Black);
    assert_eq!(7u16.green().color, LogColor::Green);
    assert_eq!(7u64.yellow().color, LogColor::Yellow);
    assert_eq!(7usize.blue().color, LogColor::Blue);
    assert_eq!(7u32.magenta().color, LogColor::Magenta);
    assert_eq!(7u32.cyan().color, LogColor::Cyan);
    assert_eq!(7u32.with_color(LogColor::Default).color, LogColor::Default);
}

#[test]
fn levels_have_their_colours() {
    assert_eq!(Level::Error.stylized().color, LogColor::Red);
    assert_eq!(Level::Warn.stylized().color, LogColor::Yellow);
    assert_eq!(Level::Info.stylized().color, LogColor::Green);
    assert_eq!(Level::Debug.stylized().color, LogColor::Magenta);
    assert_eq!(Level::Trace.stylized().color, LogColor::Blue);
    assert_eq!(Level::Warn.as_str(), "WARN");
}

#[test]
fn records_are_formatted_for_serial_and_screen() {
    let output = log("kernel::device", Level::Info, "Found 3 PCI devices");
    assert_eq!(
        output.serial,
        "[\x1b[37mkernel::device\x1b[0m] [\x1b[31m\x1b[32mINFO\x1b[0m\x1b[0m] Found 3 PCI devices\n"
    );
    assert_eq!(output.screen, Some(output.serial.clone()));
    let output = log("kernel", Level::Trace, "Halting");
    assert_eq!(output.serial, "[\x1b[37mkernel\x1b[0m] [\x1b[31m\x1b[34mTRACE\x1b[0m\x1b[0m] Halting\n");
    assert_eq!(output.screen, None);
}

fn small(format: PixelFormat, bytes_per_pixel: usize) -> FrameBufferInfo {
    FrameBufferInfo {
        byte_len: 32 * 20 * bytes_per_pixel,
        width: 32,
        height: 20,
        pixel_format: format,
        bytes_per_pixel,
        stride: 32,
    }
}

#[test]
fn pixel_is_written_in_the_layout_of_the_framebuffer() {
    let info = small(PixelFormat::Bgr, 3);
    let mut buffer = vec![0x11u8; info.byte_len];
    write_pixel(&mut buffer, info, Color::Brown, 2, 1, 255);
    let start = (32 + 2) * 3;
    assert_eq!(&buffer[start..start + 3], &[0x80, 0xFF, 0xFF]);
    assert!(buffer[..start].iter().all(|byte| *byte == 0x11));
    assert!(buffer[start + 3..].iter().all(|byte| *byte == 0x11));

    // A pixel outside the framebuffer is not written.
    let before = buffer.clone();
    write_pixel(&mut buffer, info, Color::Brown, 0, 20, 255);
    assert_eq!(buffer, before);
    // Nor one outside a buffer that is shorter than its description.
    let mut short = vec![0u8; start + 2];
    write_pixel(&mut short, info, Color::Brown, 2, 1, 255);
    assert!(short.iter().all(|byte| *byte == 0));
}

#[test]
fn glyph_is_drawn_row_after_row() {
    let info = small(PixelFormat::U8, 1);
    let raster = Raster { width: 2, intensities: vec![255, 0, 0, 255, 201, 200] };
    let glyph = Glyph { character: 'x', x: 3, y: 4, color: Color::White };
    let mut buffer = vec![7u8; info.byte_len];
    write_rendered_char(&mut buffer, info, glyph, &raster);
    let at = |x: usize, y: usize| buffer[y * 32 + x];
    assert_eq!((at(3, 4), at(4, 4)), (0xf, 0));
    assert_eq!((at(3, 5), at(4, 5)), (0, 0xf));
    assert_eq!((at(3, 6), at(4, 6)), (0xf, 0));
    assert_eq!(buffer.iter().filter(|byte| **byte != 7).count(), 6);

    let flat = Raster { width: 0, intensities: vec![255, 255] };
    let mut untouched = vec![7u8; info.byte_len];
    write_rendered_char(&mut untouched, info, glyph, &flat);
    assert!(untouched.iter().all(|byte| *byte == 7));
}

#[test]
fn characters_of_the_font_have_a_raster_of_sixteen_rows() {
    let raster = get_char_raster('A').unwrap();
    assert!(raster.width > 0);
    assert_eq!(raster.intensities.len(), raster.width * 16);
    assert!(raster.intensities.iter().any(|intensity| *intensity > 0));
    let blank = get_char_raster(' ').unwrap();
    assert!(blank.intensities.iter().all(|intensity| *intensity == 0));
    assert_ne!(get_char_raster('A'), get_char_raster('B'));
    // A character that the font lacks is drawn as the backup character.
    assert_eq!(get_char_raster('\u{4e2d}'), get_char_raster(BACKUP_CHAR));
    assert!(get_char_raster(BACKUP_CHAR).is_some());
}

#[test]
fn screen_is_cleared_before_the_glyph_is_drawn() {
    let info = small(PixelFormat::Rgb, 4);
    let mut buffer = vec![0x55u8; info.byte_len];
    let glyph = Glyph { character: 'A', x: 1, y: 1, color: Color::White };
    draw(&mut buffer, info, Drawn { cleared: true, glyph: Some(glyph) });
    let raster = get_char_raster('A').unwrap();
    for (n, intensity) in raster.intensities.iter().enumerate() {
        let x = 1 + n % raster.width;
        let y = 1 + n / raster.width;
        let start = (y * 32 + x) * 4;
        assert_eq!(&buffer[start..start + 4], &[*intensity, *intensity, *intensity, 0]);
    }
    assert_eq!(buffer[0], 0);
    assert_eq!(buffer[info.byte_len - 1], 0);

    let mut kept = vec![0x55u8; info.byte_len];
    draw(&mut kept, info, Drawn { cleared: false, glyph: None });
    assert!(kept.iter().all(|byte| *byte == 0x55));
    clear_framebuffer(&mut kept);
    assert!(kept.iter().all(|byte| *byte == 0));
}
