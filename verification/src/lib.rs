//! A single-button panel applet, seen from the inside: how the desktop entry
//! behind the button is found and read, and what a click on the button does.
//!
//! The crate holds the rules and leaves the world to its caller. It opens no
//! file and starts no process: the caller reads the files and starts the
//! commands that the functions here ask for.

pub mod button;
pub mod decode;
pub mod descriptor;
pub mod resolve;
pub mod search;

pub use button::{shell_invocation, Button, Effect, Invocation, Msg};
pub use decode::parse;
pub use descriptor::{Descriptor, EntryFields, ResolveError};
pub use resolve::{examine, file_name, resolve, Candidate};
pub use search::{begin, proceed, Action};
