//! The kernel's view of the machine as a whole.

pub mod console;
pub mod symbols;
pub mod system;

pub use self::console::Console;
pub use self::system::{HypervisorKind, System};
