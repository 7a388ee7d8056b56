//! An interpreter for a minimal tape-based language whose eight primitive
//! instructions can be written in several dialects at once: the classic
//! ASCII symbols, a fixed emoji "hands" alphabet, and themed emoji families
//! from which a randomized renderer draws.  The machine decodes a source
//! text into a canonical program, renders it back into any dialect, and
//! runs it against a growable byte tape with an input and an output stream.

pub mod dialect;
pub mod machine;
pub mod semantics;

pub use dialect::Command;
pub use machine::BfMachine;
pub use semantics::Error;
