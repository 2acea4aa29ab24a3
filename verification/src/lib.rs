//! Disassembler for the 16-bit Thumb instruction encoding.
//!
//! A raw 16-bit word is first classified by width (a complete 16-bit
//! instruction, or the first half of a 32-bit instruction whose second word
//! is discarded), then routed through an ordered cascade of masked opcode
//! comparisons to an instruction family, and finally rendered as a textual
//! mnemonic with operands. Every rendering function carries an exact
//! contract: the returned string equals a spec-level sequence of characters
//! computed from the word's bit fields.

pub mod arith;
pub mod classify;
pub mod dataproc;
pub mod decode;
pub mod fields;
pub mod memory;
pub mod placeholders;
pub mod reglist;
pub mod render;
pub mod special;
pub mod stream;
