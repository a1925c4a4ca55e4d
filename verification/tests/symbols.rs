use nocciolo::memory::MemoryImage;
use nocciolo::meta::symbols::{find_symbol, resolve, Backtrace, BacktraceFrame, Symbol};

fn put16(image: &mut Vec<u8>, value: u16) {
    image.extend_from_slice(&value.to_le_bytes());
}

fn put32(image: &mut Vec<u8>, value: u32) {
    image.extend_from_slice(&value.to_le_bytes());
}

fn put64(image: &mut Vec<u8>, value: u64) {
    image.extend_from_slice(&value.to_le_bytes());
}

fn section(image: &mut Vec<u8>, kind: u32, offset: u64, size: u64, link: u32, entry: u64) {
    put32(image, 0);
    put32(image, kind);
    put64(image, 0);
    put64(image, 0);
    put64(image, offset);
    put64(image, size);
    put32(image, link);
    put32(image, 0);
    put64(image, 1);
    put64(image, entry);
}

fn symbol(image: &mut Vec<u8>, name: u32, value: u64, size: u64) {
    put32(image, name);
    image.push(0);
    image.push(0);
    put16(image, 0);
    put64(image, value);
    put64(image, size);
}

/// A 64-bit little-endian image with a symbol table of four symbols.
fn kernel_image() -> Vec<u8> {
    let strings = b"\0kernel_main\0hlt_loop\0";
    let symbols_at = 64u64;
    let strings_at = symbols_at + 4 * 24;
    let sections_at = strings_at + strings.len() as u64 + 1;

    let mut image = Vec::new();
    image.extend_from_slice(&[0x7f, b'E', b'L', b'F', 2, 1, 1, 0]);
    image.extend_from_slice(&[0; 8]);
    put16(&mut image, 2);
    put16(&mut image, 62);
    put32(&mut image, 1);
    put64(&mut image, 0);
    put64(&mut image, 0);
    put64(&mut image, sections_at);
    put32(&mut image, 0);
    put16(&mut image, 64);
    put16(&mut image, 0);
    put16(&mut image, 0);
    put16(&mut image, 64);
    put16(&mut image, 3);
    put16(&mut image, 0);
    assert_eq!(image.len(), 64);

    symbol(&mut image, 0, 0, 0);
    symbol(&mut image, 1, 0x20_1000, 0x40);
    symbol(&mut image, 13, 0x20_2000, 0);
    symbol(&mut image, 0, 0x20_3000, 0);
    image.extend_from_slice(strings);
    image.push(0);
    assert_eq!(image.len() as u64, sections_at);

    section(&mut image, 0, 0, 0, 0, 0);
    section(&mut image, 2, symbols_at, 4 * 24, 2, 24);
    section(&mut image, 3, strings_at, strings.len() as u64, 0, 0);
    image
}

#[test]
fn offsets_resolve_to_the_symbol_that_starts_and_ends_there() {
    let symbols = vec![
        Symbol { st_name: 1, st_value: 0x1000, st_size: 0x40 },
        Symbol { st_name: 13, st_value: 0x2000, st_size: 0 },
        Symbol { st_name: 0, st_value: 0x3000, st_size: 0 },
        Symbol { st_name: 21, st_value: 0x3000, st_size: 0 },
        Symbol { st_name: 30, st_value: u64::MAX, st_size: 5 },
    ];
    assert_eq!(find_symbol(&symbols, 0x2000), Some(13));
    assert_eq!(find_symbol(&symbols, 0x1000), None);
    assert_eq!(find_symbol(&symbols, 0x1020), None);
    // The first match decides, and it has no name.
    assert_eq!(find_symbol(&symbols, 0x3000), None);
    assert_eq!(find_symbol(&symbols, u64::MAX), None);
    assert_eq!(find_symbol(&Vec::new(), 0), None);
}

#[test]
fn names_are_read_from_the_kernel_image() {
    let image = kernel_image();
    assert_eq!(resolve(&image, 0x20_2000), Some("hlt_loop".to_string()));
    assert_eq!(resolve(&image, 0x20_1000), None);
    assert_eq!(resolve(&image, 0x20_3000), None);
    assert_eq!(resolve(&image, 0x20_2001), None);
    let frame = BacktraceFrame { ptr: 0x20_2000 };
    assert_eq!(frame.pointer(), 0x20_2000);
    assert_eq!(frame.symbol(&image), Some("hlt_loop".to_string()));
}

#[test]
fn image_without_symbols_resolves_nothing() {
    assert_eq!(resolve(&Vec::new(), 0x20_2000), None);
    assert_eq!(resolve(&vec![0x7f, b'E', b'L', b'F'], 0x20_2000), None);
    let mut image = kernel_image();
    let sections_at = image.len() - 3 * 64;
    // Turn the symbol table section into one of another kind.
    image[sections_at + 64 + 4] = 1;
    assert_eq!(resolve(&image, 0x20_2000), None);
}

#[test]
fn backtrace_follows_the_saved_frame_pointers() {
    let mut stack = MemoryImage::new();
    stack.store(0x7000, 0x7040);
    stack.store(0x7040, 0x7100);
    let mut frames = Backtrace::capture(0x7000);
    assert_eq!(frames.next(&stack), Some(BacktraceFrame { ptr: 0x7000 }));
    assert_eq!(frames.next(&stack), Some(BacktraceFrame { ptr: 0x7040 }));
    assert_eq!(frames.next(&stack), Some(BacktraceFrame { ptr: 0x7100 }));
    assert_eq!(frames.next(&stack), None);
    assert_eq!(frames.next(&stack), None);
    assert_eq!(Backtrace::capture_from(0).next(&stack), None);
}
