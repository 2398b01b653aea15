//! A verified core for an `echo`-style command: classifying the command-line
//! tokens into options and operands, decoding backslash escapes, and
//! rendering the text that the command writes.

pub mod text;
pub mod options;
pub mod escape;
pub mod render;
pub mod laws;
