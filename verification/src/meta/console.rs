//! The console as the keyboard task sees it.

use crate::vga_text_buffer::{char_written, floored_difference, Drawn, Writer};
use vstd::prelude::*;

verus! {

pub struct Console;

impl Console {
    /// Takes the last character of the console back.
    pub fn backspace(writer: &mut Writer) -> (drawn: Drawn)
        ensures
            ({
                let back = Writer {
                    x_pos: floored_difference(old(writer).x_pos, old(writer).last_width),
                    ..*old(writer)
                };
                let (blanked, blank) = char_written(back, ' ');
                &&& drawn == blank
                &&& *final(writer) == (Writer {
                    x_pos: floored_difference(blanked.x_pos, blanked.last_width),
                    ..blanked
                })
            }),
    {
        writer.backspace()
    }
}

} // verus!
