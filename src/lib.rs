//! Reads the WebAssembly text format and writes its binary encoding.
//!
//! The [`parser`] turns source text into the tree of [`ast`]; the
//! [`emitter`] serialises parts of that tree into bytes, using the opcode
//! tables of [`opcode`] and the variable-length integers of [`leb128`].

pub mod ast;
pub mod leb128;
pub mod opcode;
pub mod emitter;
pub mod parser;
