//! Decoder for the fixed-record binary form that a MIPS assembler's first pass
//! leaves behind, and a renderer that turns the decoded statements back into
//! assembly text.
//!
//! A buffer is a sequence of blocks of sixteen bytes. `binasm` walks it
//! record by record with a `cursor`, `decode` turns each record into a
//! `statement`, and `render` turns each statement into its line of text, or
//! `dump`s it where it has none. The names of registers, opcodes and the
//! like come from the tables of `mips`.

pub mod binasm;
pub mod bits;
pub mod cursor;
pub mod debugging;
pub mod decode;
pub mod dump;
pub mod mips;
pub mod render;
pub mod statement;
pub mod text;
