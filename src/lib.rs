//! Random strings of a given length over a caller-supplied set of byte symbols.

pub mod generate;
pub mod random_string;
pub mod sampler;

pub use generate::{generate, generate_with_rng};
pub use sampler::{select_symbols, GenerateError, UniformSource};
