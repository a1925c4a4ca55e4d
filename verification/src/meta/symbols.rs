//! Backtraces through the saved frame pointers, and the names of the
//! functions that they lead through.

use crate::memory::{table_entry, MemoryImage};
use elf::endian::LittleEndian;
use elf::ElfBytes;
use vstd::prelude::*;

verus! {

/// One entry of the symbol table of the kernel image.
#[derive(Debug, Clone, Copy, PartialEq, Eq, Structural)]
pub struct Symbol {
    /// Where the name of the symbol starts in the string table.
    pub st_name: u32,
    pub st_value: u64,
    pub st_size: u64,
}

/// The symbol table of a little-endian ELF image, in the order of the table;
/// none where the image cannot be parsed or holds no symbol table.
pub uninterp spec fn symbols_of(image: Seq<u8>) -> Option<Seq<Symbol>>;

/// The string that starts at an offset of the string table that belongs to
/// the symbol table of a little-endian ELF image; none where there is no such
/// table or no string of valid UTF-8 starts there.
pub uninterp spec fn symbol_name_of(image: Seq<u8>, st_name: u32) -> Option<Seq<char>>;

/// `ElfBytes::minimal_parse` on the image and `ElfBytes::symbol_table` on
/// what it returns: the entries of the symbol table, each reduced to its
/// name offset, value and size. The result depends on the bytes of the image
/// alone.
#[verifier::external_body]
fn symbol_table(image: &Vec<u8>) -> (table: Option<Vec<Symbol>>)
    ensures
        table.is_some() == symbols_of(image@).is_some(),
        table matches Some(symbols) ==> symbols@ == symbols_of(image@)->0,
{
    let file = ElfBytes::<LittleEndian>::minimal_parse(image.as_slice()).ok()?;
    let (symbols, _) = file.symbol_table().ok()??;
    Some(
        symbols.iter().map(
            |sym| Symbol { st_name: sym.st_name, st_value: sym.st_value, st_size: sym.st_size },
        ).collect(),
    )
}

/// `StringTable::get` on the string table that `ElfBytes::symbol_table`
/// returns for the image parsed by `ElfBytes::minimal_parse`. The result
/// depends on the bytes of the image and on the offset alone.
#[verifier::external_body]
fn symbol_name(image: &Vec<u8>, st_name: u32) -> (name: Option<String>)
    ensures
        name.is_some() == symbol_name_of(image@, st_name).is_some(),
        name matches Some(text) ==> text@ == symbol_name_of(image@, st_name)->0,
{
    let file = ElfBytes::<LittleEndian>::minimal_parse(image.as_slice()).ok()?;
    let (_, strings) = file.symbol_table().ok()??;
    strings.get(st_name as usize).ok().map(String::from)
}

/// Whether a symbol is the one that an offset resolves to: its value is not
/// below the offset, and its end is not above it.
pub open spec fn symbol_matches(symbol: Symbol, offset: u64) -> bool {
    symbol.st_value >= offset && symbol.st_value + symbol.st_size <= offset
}

/// Position of the first symbol from `from` on that an offset resolves to,
/// or the number of symbols where there is none.
pub open spec fn first_match(symbols: Seq<Symbol>, offset: u64, from: int) -> int
    decreases symbols.len() - from,
{
    if from < 0 || from >= symbols.len() {
        symbols.len() as int
    } else if symbol_matches(symbols[from], offset) {
        from
    } else {
        first_match(symbols, offset, from + 1)
    }
}

/// The offset in the string table of the name of the symbol that an offset
/// resolves to: that of the first matching symbol, unless it has no name.
pub open spec fn resolved_name(symbols: Seq<Symbol>, offset: u64) -> Option<u32> {
    let found = first_match(symbols, offset, 0);
    if found < symbols.len() && symbols[found].st_name != 0 {
        Some(symbols[found].st_name)
    } else {
        None
    }
}

/// Looks an offset up in a symbol table.
pub fn find_symbol(symbols: &Vec<Symbol>, offset: u64) -> (name: Option<u32>)
    ensures
        name == resolved_name(symbols@, offset),
{
    let mut i: usize = 0;
    while i < symbols.len()
        invariant
            i <= symbols.len(),
            first_match(symbols@, offset, i as int) == first_match(symbols@, offset, 0),
        decreases symbols.len() - i,
    {
        let sym = symbols[i];
        if sym.st_value < offset {
            i += 1;
            continue ;
        }
        let past: bool = match sym.st_value.checked_add(sym.st_size) {
            Some(end) => end > offset,
            None => true,
        };
        if past {
            i += 1;
            continue ;
        }
        assert(first_match(symbols@, offset, i as int) == i);
        if sym.st_name == 0 {
            return None;
        }
        return Some(sym.st_name);
    }

    None
}

/// The name of the function at an offset of the kernel image, if the image
/// has a symbol table and the table knows the offset by name.
pub fn resolve(image: &Vec<u8>, offset: u64) -> (name: Option<String>)
    ensures
        name.is_some() == (match symbols_of(image@) {
            Some(symbols) => match resolved_name(symbols, offset) {
                Some(st_name) => symbol_name_of(image@, st_name).is_some(),
                None => false,
            },
            None => false,
        }),
        name matches Some(text) ==> text@ == symbol_name_of(
            image@,
            resolved_name(symbols_of(image@)->0, offset)->0,
        )->0,
{
    let symbols = symbol_table(image)?;
    let st_name: u32 = find_symbol(&symbols, offset)?;
    symbol_name(image, st_name)
}

/// Entry point of backtraces.
pub struct Backtrace;

impl Backtrace {
    /// A backtrace from the frame whose saved frame pointer lies at `ptr`.
    pub fn capture_from(ptr: u64) -> (frames: BacktraceIterator)
        ensures
            frames.ptr == ptr,
    {
        BacktraceIterator { ptr }
    }

    /// A backtrace from the frame of the caller, whose frame pointer the
    /// caller has read from the processor.
    pub fn capture(frame_pointer: u64) -> (frames: BacktraceIterator)
        ensures
            frames.ptr == frame_pointer,
    {
        Self::capture_from(frame_pointer)
    }
}

/// A walk up the chain of saved frame pointers.
#[derive(Debug, Clone, Copy, PartialEq, Eq, Structural)]
pub struct BacktraceIterator {
    /// Address of the next saved frame pointer, or zero at the end of the
    /// chain.
    pub ptr: u64,
}

impl BacktraceIterator {
    /// The next frame, and the step to the frame above it: the word that the
    /// stack holds at the address of a frame is the address of the frame
    /// above. The walk ends at a null address.
    pub fn next(&mut self, stack: &MemoryImage) -> (frame: Option<BacktraceFrame>)
        ensures
            frame == (if old(self).ptr == 0 {
                None
            } else {
                Some(BacktraceFrame { ptr: old(self).ptr })
            }),
            final(self).ptr == (if old(self).ptr == 0 {
                0
            } else {
                table_entry(stack@, old(self).ptr)
            }),
    {
        if self.ptr == 0 {
            return None;
        }
        let ptr: u64 = self.ptr;
        self.ptr = stack.entry(ptr);
        Some(BacktraceFrame { ptr })
    }
}

/// One frame of a backtrace.
#[derive(Debug, Clone, Copy, PartialEq, Eq, Structural)]
pub struct BacktraceFrame {
    pub ptr: u64,
}

impl BacktraceFrame {
    pub fn pointer(&self) -> (ptr: u64)
        ensures
            ptr == self.ptr,
    {
        self.ptr
    }

    /// The name of the function that the frame belongs to, as far as the
    /// symbol table of the kernel image knows it.
    pub fn symbol(&self, image: &Vec<u8>) -> (name: Option<String>)
        ensures
            name.is_some() == (match symbols_of(image@) {
                Some(symbols) => match resolved_name(symbols, self.ptr) {
                    Some(st_name) => symbol_name_of(image@, st_name).is_some(),
                    None => false,
                },
                None => false,
            }),
            name matches Some(text) ==> text@ == symbol_name_of(
                image@,
                resolved_name(symbols_of(image@)->0, self.ptr)->0,
            )->0,
    {
        resolve(image, self.ptr)
    }
}

} // verus!
