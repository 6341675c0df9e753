//! Decoders that work from fields already extracted from a word.
pub mod basei;
pub mod mext;
