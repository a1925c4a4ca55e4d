//! The lines of the debug log and how they are coloured.

use crate::text::push_str;
use vstd::prelude::*;

verus! {

/// The colours of the terminal that the log is read on.
#[derive(Debug, Clone, Copy, PartialEq, Eq, Structural)]
pub enum Color {
    Black,
    Red,
    Green,
    Yellow,
    Blue,
    Magenta,
    Cyan,
    White,
    Default,
}

/// The parameter that selects a colour as the foreground in an escape
/// sequence.
pub open spec fn color_code(color: Color) -> &'static str {
    match color {
        Color::Black => "30",
        Color::Red => "31",
        Color::Green => "32",
        Color::Yellow => "33",
        Color::Blue => "34",
        Color::Magenta => "35",
        Color::Cyan => "36",
        Color::White => "37",
        Color::Default => "39",
    }
}

/// The escape sequence that makes a colour the foreground.
pub open spec fn color_escape(color: Color) -> Seq<char> {
    "\x1b["@ + color_code(color)@ + "m"@
}

/// A text as it is written to the log in a colour: the escape sequence of
/// the colour, the text, and the sequence that resets the terminal.
pub open spec fn colored_text(color: Color, text: Seq<char>) -> Seq<char> {
    color_escape(color) + text + "\x1b[0m"@
}

impl Color {
    pub fn as_str(&self) -> (code: &'static str)
        ensures
            code == color_code(*self),
    {
        match self {
            Self::Black => "30",
            Self::Red => "31",
            Self::Green => "32",
            Self::Yellow => "33",
            Self::Blue => "34",
            Self::Magenta => "35",
            Self::Cyan => "36",
            Self::White => "37",
            Self::Default => "39",
        }
    }

    /// The escape sequence that makes the colour the foreground.
    pub fn escape(&self) -> (sequence: String)
        ensures
            sequence@ == color_escape(*self),
    {
        let mut sequence = "\x1b[".to_owned();
        push_str(&mut sequence, self.as_str());
        push_str(&mut sequence, "m");
        sequence
    }
}

/// A value together with the colour that it is logged in.
#[derive(Debug, Clone, Copy)]
pub struct Colored<S> {
    pub color: Color,
    pub inner: S,
}

impl<S> Colored<S> {
    /// The coloured form of `text`, which is the value written out.
    pub fn render(&self, text: &str) -> (rendered: String)
        ensures
            rendered@ == colored_text(self.color, text@),
    {
        let mut rendered = self.color.escape();
        push_str(&mut rendered, text);
        push_str(&mut rendered, "\x1b[0m");
        rendered
    }
}

/// Values that can be logged in a colour.
pub trait Colorize: Sized {
    fn black(self) -> (colored: Colored<Self>)
        ensures
            colored.color == Color::Black,
            colored.inner == self,
    {
        self.with_color(Color::Black)
    }

    fn red(self) -> (colored: Colored<Self>)
        ensures
            colored.color == Color::Red,
            colored.inner == self,
    {
        self.with_color(Color::Red)
    }

    fn green(self) -> (colored: Colored<Self>)
        ensures
            colored.color == Color::Green,
            colored.inner == self,
    {
        self.with_color(Color::Green)
    }

    fn yellow(self) -> (colored: Colored<Self>)
        ensures
            colored.color == Color::Yellow,
            colored.inner == self,
    {
        self.with_color(Color::Yellow)
    }

    fn blue(self) -> (colored: Colored<Self>)
        ensures
            colored.color == Color::Blue,
            colored.inner == self,
    {
        self.with_color(Color::Blue)
    }

    fn magenta(self) -> (colored: Colored<Self>)
        ensures
            colored.color == Color::Magenta,
            colored.inner == self,
    {
        self.with_color(Color::Magenta)
    }

    fn cyan(self) -> (colored: Colored<Self>)
        ensures
            colored.color == Color::Cyan,
            colored.inner == self,
    {
        self.with_color(Color::Cyan)
    }

    fn white(self) -> (colored: Colored<Self>)
        ensures
            colored.color == Color::White,
            colored.inner == self,
    {
        self.with_color(Color::White)
    }

    fn with_color(self, color: Color) -> (colored: Colored<Self>)
        ensures
            colored.color == color,
            colored.inner == self,
    {
        Colored { inner: self, color }
    }
}

impl Colorize for &str {

}

impl Colorize for Level {

}

impl Colorize for u8 {

}

impl Colorize for u16 {

}

impl Colorize for u32 {

}

impl Colorize for u64 {

}

impl Colorize for usize {

}

/// How much a log record matters.
#[derive(Debug, Clone, Copy, PartialEq, Eq, Structural)]
pub enum Level {
    Error,
    Warn,
    Info,
    Debug,
    Trace,
}

/// The name of a level as it is logged.
pub open spec fn level_name(level: Level) -> &'static str {
    match level {
        Level::Error => "ERROR",
        Level::Warn => "WARN",
        Level::Info => "INFO",
        Level::Debug => "DEBUG",
        Level::Trace => "TRACE",
    }
}

/// The colour that a level is logged in.
pub open spec fn level_color(level: Level) -> Color {
    match level {
        Level::Error => Color::Red,
        Level::Warn => Color::Yellow,
        Level::Info => Color::Green,
        Level::Debug => Color::Magenta,
        Level::Trace => Color::Blue,
    }
}

/// A line of the log without its end: the target in white and the level in
/// its colour, each in square brackets, then the message. The bracket of the
/// level is opened in red and closed after a reset.
pub open spec fn log_line(target: Seq<char>, level: Level, message: Seq<char>) -> Seq<char> {
    "["@ + colored_text(Color::White, target) + "] [\x1b[31m"@ + colored_text(
        level_color(level),
        level_name(level)@,
    ) + "\x1b[0m] "@ + message
}

impl Level {
    /// The name of the level.
    pub fn as_str(&self) -> (name: &'static str)
        ensures
            name == level_name(*self),
    {
        match self {
            Level::Error => "ERROR",
            Level::Warn => "WARN",
            Level::Info => "INFO",
            Level::Debug => "DEBUG",
            Level::Trace => "TRACE",
        }
    }

    /// The level in the colour that it is logged in.
    pub fn stylized(self) -> (colored: Colored<Self>)
        ensures
            colored.color == level_color(self),
            colored.inner == self,
    {
        match self {
            Self::Error => self.red(),
            Self::Warn => self.yellow(),
            Self::Info => self.green(),
            Self::Debug => self.magenta(),
            Self::Trace => self.blue(),
        }
    }
}

/// What the logger does with one record.
pub struct LogOutput {
    /// The line for the serial port, with its line end.
    pub serial: String,
    /// The line for the screen, with its line end, unless the record is
    /// only traced.
    pub screen: Option<String>,
}

/// Formats a record. Every record goes to the serial port; all but traces
/// go to the screen too.
pub fn log(target: &str, level: Level, message: &str) -> (output: LogOutput)
    ensures
        output.serial@ == log_line(target@, level, message@) + "\n"@,
        output.screen is Some == (level != Level::Trace),
        output.screen matches Some(line) ==> line@ == output.serial@,
{
    let mut line = "[".to_owned();
    let shown = target.white().render(target);
    push_str(&mut line, shown.as_str());
    push_str(&mut line, "] [\x1b[31m");
    let name = level.stylized().render(level.as_str());
    push_str(&mut line, name.as_str());
    push_str(&mut line, "\x1b[0m] ");
    push_str(&mut line, message);
    push_str(&mut line, "\n");
    assert(line@ =~= log_line(target@, level, message@) + "\n"@);

    let screen = if level != Level::Trace {
        Some(line.clone())
    } else {
        None
    };
    LogOutput { serial: line, screen }
}

} // verus!
