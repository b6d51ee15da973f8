//! Verified core of a C-compatible boundary around a byte-pair-encoding tokenizer:
//! text marshalling, tokenizer handle lifecycle, token buffer transfer and the
//! sentinel values that signal failure to a caller without structured errors.

pub mod text;
pub mod buffer;
pub mod handle;
pub mod boundary;
