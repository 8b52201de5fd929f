//! An interactive evaluation session for the Rune scripting language.
//!
//! A session owns a growing buffer of accepted source lines. Each new line is
//! joined to the buffer, wrapped as the body of one synthetic entry routine,
//! and handed to the engine (the Rune compiler and virtual machine) as one
//! complete program. A line that the compiler rejects is discarded and the
//! buffer stays exactly as it was; a line whose execution completes normally
//! becomes part of the buffer. Three meta commands (`.clear`, `.show`,
//! `.help`), recognized by exact text equality, bypass the engine entirely.
pub mod engine;
pub mod session;
