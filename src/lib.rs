//! Random character strings drawn from a configurable character set.

pub mod charset;
pub mod source;
pub mod generate;
pub mod laws;
pub mod cli;

pub use charset::OutputCharsType;
pub use source::RandomIndexSource;
pub use cli::{argument_validator, ends_with_newline, output_chars_type_from_flags};
pub use generate::{gen_random_string, gen_random_string_with_rng, string_from_draws};
